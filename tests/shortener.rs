use std::collections::HashSet;
use url_shortener::code::{generate_short_code, short_code_of, SHORT_CODE_LEN};
use url_shortener::models::{ShortenRequest, UrlEntry};
use url_shortener::service::{
    classify_lookup, compose_short_url, redirect_location, resolve_outcome, shorten_outcome,
    Lookup, UrlService, INTERNAL_SERVER_ERROR,
};
use url_shortener::store::{store_error_of, MemoryStore, StoreError};

fn request(url: &str) -> ShortenRequest {
    ShortenRequest { code: None, url: url.to_string() }
}

fn is_lower_hex(s: &str) -> bool {
    s.chars().all(|c| c.is_ascii_digit() || ('a'..='f').contains(&c))
}

#[test]
fn generated_code_is_eight_lower_hex_digits() {
    let c = generate_short_code();
    assert_eq!(c.len(), SHORT_CODE_LEN);
    assert_eq!(c.len(), 8);
    assert!(is_lower_hex(&c));
}

#[test]
fn generated_codes_are_unique_under_load() {
    let mut seen = HashSet::new();
    for _ in 0..2000 {
        assert!(seen.insert(generate_short_code()));
    }
    assert_eq!(seen.len(), 2000);
}

#[test]
fn short_code_is_head_of_uuid_text() {
    let text = "67e55044-10b1-426f-9247-bb680e5fe0c8";
    assert_eq!(short_code_of(text), "67e55044");
}

#[test]
fn concrete_shorten_redirect_and_resolve() {
    let base = "http://localhost:3000";
    let mut svc = UrlService::new(base);
    let resp = svc.shorten(&request("https://example.com/a/b")).unwrap();
    assert_eq!(resp.short_code.len(), 8);
    assert!(is_lower_hex(&resp.short_code));
    assert_eq!(resp.short_url, format!("{}/{}", base, resp.short_code));
    assert_eq!(svc.redirect(&resp.short_code), "https://example.com/a/b");
    let entry = svc.resolve(&resp.short_code).unwrap();
    assert_eq!(entry.short_code, resp.short_code);
    assert_eq!(entry.original_url, "https://example.com/a/b");
}

#[test]
fn round_trip_keeps_url_byte_for_byte() {
    let mut svc = UrlService::new("https://s.io");
    let url = "https://ex.com/path?q=1&r=\u{e9}#frag ";
    let resp = svc.shorten(&request(url)).unwrap();
    assert_eq!(svc.resolve(&resp.short_code).unwrap().original_url, url);
    assert_eq!(svc.redirect(&resp.short_code), url);
}

#[test]
fn ignored_custom_code_in_request() {
    let mut svc = UrlService::new("https://s.io");
    let req = ShortenRequest { code: Some("mine".to_string()), url: "https://a.b".to_string() };
    let resp = svc.shorten(&req).unwrap();
    assert_ne!(resp.short_code, "mine");
    assert!(svc.resolve("mine").is_none());
}

#[test]
fn unknown_code_is_absent() {
    let mut svc = UrlService::new("https://s.io");
    svc.shorten(&request("https://a.b")).unwrap();
    assert!(svc.resolve("zzzzzzzz").is_none());
    assert_eq!(svc.redirect("zzzzzzzz"), "/404");
    assert!(svc.resolve("").is_none());
    assert_eq!(svc.redirect(""), "/404");
}

#[test]
fn repeated_resolve_gives_same_answer() {
    let mut svc = UrlService::new("https://s.io");
    let resp = svc.shorten(&request("https://a.b/c")).unwrap();
    let a = svc.resolve(&resp.short_code).unwrap();
    let b = svc.resolve(&resp.short_code).unwrap();
    assert_eq!(a.short_code, b.short_code);
    assert_eq!(a.original_url, b.original_url);
    assert_eq!(svc.redirect(&resp.short_code), svc.redirect(&resp.short_code));
}

#[test]
fn second_save_under_same_code_conflicts() {
    let mut store = MemoryStore::new();
    assert_eq!(store.save("abcd1234", "https://first"), Ok(()));
    assert_eq!(store.save("abcd1234", "https://second"), Err(StoreError::Conflict));
    let e = store.find("abcd1234").unwrap().unwrap();
    assert_eq!(e.short_code, "abcd1234");
    assert_eq!(e.original_url, "https://first");
}

#[test]
fn store_find_missing_and_present() {
    let mut store = MemoryStore::new();
    assert!(store.find("a").unwrap().is_none());
    store.save("a", "u").unwrap();
    store.save("b", "v").unwrap();
    assert_eq!(store.find("b").unwrap().unwrap().original_url, "v");
    assert_eq!(store.find("a").unwrap().unwrap().original_url, "u");
    assert!(store.find("c").unwrap().is_none());
}

#[test]
fn store_error_classification() {
    assert_eq!(store_error_of(true), StoreError::Conflict);
    assert_eq!(store_error_of(false), StoreError::Backend);
}

#[test]
fn compose_joins_with_slash() {
    assert_eq!(compose_short_url("http://0.0.0.0:3000", "1a2b3c4d"), "http://0.0.0.0:3000/1a2b3c4d");
    assert_eq!(compose_short_url("", "x"), "/x");
}

#[test]
fn shorten_outcome_success_and_failures() {
    let ok = shorten_outcome("http://h", "deadbeef".to_string(), Ok(())).unwrap();
    assert_eq!(ok.short_code, "deadbeef");
    assert_eq!(ok.short_url, "http://h/deadbeef");
    let conflict = shorten_outcome("http://h", "deadbeef".to_string(), Err(StoreError::Conflict));
    assert_eq!(conflict.unwrap_err(), INTERNAL_SERVER_ERROR);
    let backend = shorten_outcome("http://h", "deadbeef".to_string(), Err(StoreError::Backend));
    assert_eq!(backend.unwrap_err(), 500);
}

#[test]
fn lookup_classification_and_responses() {
    let found = classify_lookup(Ok(Some(UrlEntry::new("abc", "https://t"))));
    assert!(matches!(found, Lookup::Found(_)));
    assert_eq!(redirect_location(&found), "https://t");
    assert_eq!(resolve_outcome(found).unwrap().original_url, "https://t");

    let absent = classify_lookup(Ok(None));
    assert!(matches!(absent, Lookup::Absent));
    assert_eq!(redirect_location(&absent), "/404");
    assert!(resolve_outcome(absent).is_none());

    let failed = classify_lookup(Err(StoreError::Backend));
    assert!(matches!(failed, Lookup::BackendError));
    assert_eq!(redirect_location(&failed), "/404");
    assert!(resolve_outcome(failed).is_none());
}

#[test]
fn service_keeps_base_url() {
    let svc = UrlService::new("https://short.example");
    assert_eq!(svc.site_url(), "https://short.example");
}

#[test]
fn many_shortens_all_resolve() {
    let mut svc = UrlService::new("b");
    let mut codes = Vec::new();
    for i in 0..200 {
        let url = format!("https://example.com/{}", i);
        codes.push((svc.shorten(&request(&url)).unwrap().short_code, url));
    }
    for (c, u) in &codes {
        assert_eq!(&svc.redirect(c), u);
    }
}
