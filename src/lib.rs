//! A URL-shortening library: short-code generation, a write-once mapping
//! store, and the request steps that compose them.
pub mod code;
pub mod models;
pub mod service;
pub mod store;
