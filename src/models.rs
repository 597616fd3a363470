//! The values exchanged with callers and kept in the store.
use vstd::prelude::*;

verus! {

/// A request to shorten `url`. The optional `code` is accepted and ignored:
/// codes are always generated.
#[derive(Debug, Clone)]
pub struct ShortenRequest {
    pub code: Option<String>,
    pub url: String,
}

/// The answer to a successful shorten request.
#[derive(Debug, Clone)]
pub struct ShortenResponse {
    pub short_code: String,
    pub short_url: String,
}

/// One stored mapping from a short code to the URL it stands for.
#[derive(Debug, Clone)]
pub struct UrlEntry {
    pub short_code: String,
    pub original_url: String,
}

impl UrlEntry {
    /// Builds an entry from its two parts.
    pub fn new(short_code: &str, original_url: &str) -> (r: UrlEntry)
        ensures
            r.short_code@ == short_code@,
            r.original_url@ == original_url@,
    {
        UrlEntry { short_code: short_code.to_owned(), original_url: original_url.to_owned() }
    }

    /// A copy with the same code and URL.
    pub fn copy(&self) -> (r: UrlEntry)
        ensures
            r.short_code@ == self.short_code@,
            r.original_url@ == self.original_url@,
    {
        UrlEntry { short_code: self.short_code.clone(), original_url: self.original_url.clone() }
    }
}

} // verus!
