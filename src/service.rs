//! The shorten, resolve and redirect steps, and a service that runs them
//! against a store held in memory.
use crate::code::{generate_short_code, is_short_code};
use crate::models::{ShortenRequest, ShortenResponse, UrlEntry};
use crate::store::{after_save, save_result, stored_url, MemoryStore, StoreError};
use vstd::prelude::*;
use vstd::string::StringExecFns;

verus! {

/// Status reported when a shorten request cannot be stored.
pub const INTERNAL_SERVER_ERROR: u16 = 500;

/// Where a redirect goes when the code resolves to nothing.
pub open spec fn not_found_path() -> Seq<char> {
    seq!['/', '4', '0', '4']
}

/// The public URL of a short code: the base URL, a slash, then the code.
pub open spec fn short_url_spec(site_url: Seq<char>, code: Seq<char>) -> Seq<char> {
    site_url + seq!['/'] + code
}

/// The target a redirect on `code` points at, for a store with contents `m`.
pub open spec fn redirect_spec(m: Map<Seq<char>, Seq<char>>, code: Seq<char>) -> Seq<char> {
    match stored_url(m, code) {
        Some(u) => u,
        None => not_found_path(),
    }
}

/// What a resolve on `code` may answer for a store with contents `m`.
pub open spec fn resolve_spec(m: Map<Seq<char>, Seq<char>>, code: Seq<char>, r: Option<UrlEntry>) -> bool {
    match r {
        Some(e) => e.short_code@ == code && stored_url(m, code) == Some(e.original_url@),
        None => stored_url(m, code) is None,
    }
}

/// Shortening a URL under a new code, then resolving or redirecting on that
/// code, gives back exactly that URL.
pub proof fn lemma_round_trip(
    m: Map<Seq<char>, Seq<char>>,
    code: Seq<char>,
    url: Seq<char>,
    r: Option<UrlEntry>,
)
    requires
        !m.contains_key(code),
        resolve_spec(m.insert(code, url), code, r),
    ensures
        r matches Some(e) && e.short_code@ == code && e.original_url@ == url,
        redirect_spec(m.insert(code, url), code) == url,
{
}

/// A code with no mapping resolves to nothing and redirects to the not-found
/// path.
pub proof fn lemma_absence(m: Map<Seq<char>, Seq<char>>, code: Seq<char>, r: Option<UrlEntry>)
    requires
        !m.contains_key(code),
        resolve_spec(m, code, r),
    ensures
        r is None,
        redirect_spec(m, code) == not_found_path(),
{
}

/// Two resolves of one code on the same contents give the same answer.
pub proof fn lemma_reads_agree(
    m: Map<Seq<char>, Seq<char>>,
    code: Seq<char>,
    r1: Option<UrlEntry>,
    r2: Option<UrlEntry>,
)
    requires
        resolve_spec(m, code, r1),
        resolve_spec(m, code, r2),
    ensures
        r1 is Some <==> r2 is Some,
        r1 is Some ==> r1->0.short_code@ == r2->0.short_code@ && r1->0.original_url@
            == r2->0.original_url@,
{
}

/// The outcome of a lookup, keeping true absence apart from a failing backend.
#[derive(Debug, Clone)]
pub enum Lookup {
    Found(UrlEntry),
    Absent,
    BackendError,
}

/// Sorts what a store lookup answered into found, absent and failed.
pub fn classify_lookup(answer: Result<Option<UrlEntry>, StoreError>) -> (r: Lookup)
    ensures
        match answer {
            Ok(Some(e)) => r matches Lookup::Found(f) && f == e,
            Ok(None) => r is Absent,
            Err(_) => r is BackendError,
        },
{
    match answer {
        Ok(Some(e)) => Lookup::Found(e),
        Ok(None) => Lookup::Absent,
        Err(_) => Lookup::BackendError,
    }
}

/// The body of a resolve answer: the entry when found; nothing when absent or
/// when the backend failed, the two being indistinguishable to the caller.
pub fn resolve_outcome(lookup: Lookup) -> (r: Option<UrlEntry>)
    ensures
        match lookup {
            Lookup::Found(e) => r == Some(e),
            _ => r is None,
        },
{
    match lookup {
        Lookup::Found(e) => Some(e),
        _ => None,
    }
}

/// The target of a redirect answer: the stored URL when found; the not-found
/// path when absent or when the backend failed.
pub fn redirect_location(lookup: &Lookup) -> (r: String)
    ensures
        match lookup {
            Lookup::Found(e) => r@ == e.original_url@,
            _ => r@ == not_found_path(),
        },
{
    match lookup {
        Lookup::Found(e) => e.original_url.clone(),
        _ => {
            let r = String::from_str("/404");
            proof {
                reveal_strlit("/404");
                assert(r@ =~= not_found_path());
            }
            r
        },
    }
}

/// Joins the base URL and a short code with a slash.
pub fn compose_short_url(site_url: &str, code: &str) -> (r: String)
    ensures
        r@ == short_url_spec(site_url@, code@),
{
    let mut r = String::from_str(site_url);
    r.append("/");
    r.append(code);
    proof {
        reveal_strlit("/");
        assert(r@ =~= short_url_spec(site_url@, code@));
    }
    r
}

/// The answer to a shorten request once the store has answered the save of
/// `code`: the code and its public URL on success, a server error otherwise.
pub fn shorten_outcome(site_url: &str, code: String, saved: Result<(), StoreError>) -> (r: Result<
    ShortenResponse,
    u16,
>)
    ensures
        match saved {
            Ok(()) => r matches Ok(resp) && resp.short_code@ == code@ && resp.short_url@
                == short_url_spec(site_url@, code@),
            Err(_) => r == Err::<ShortenResponse, u16>(INTERNAL_SERVER_ERROR),
        },
{
    match saved {
        Ok(()) => {
            let short_url = compose_short_url(site_url, code.as_str());
            Ok(ShortenResponse { short_code: code, short_url })
        },
        Err(_) => Err(INTERNAL_SERVER_ERROR),
    }
}

/// A shortening service over a store held in memory, with a fixed base URL.
pub struct UrlService {
    store: MemoryStore,
    site_url: String,
}

impl UrlService {
    /// The mappings the service holds.
    pub closed spec fn mappings(&self) -> Map<Seq<char>, Seq<char>> {
        self.store@
    }

    /// The base URL that short URLs are built on.
    pub closed spec fn base(&self) -> Seq<char> {
        self.site_url@
    }

    pub closed spec fn wf(&self) -> bool {
        self.store.wf()
    }

    /// A service with no mappings yet.
    pub fn new(site_url: &str) -> (r: UrlService)
        ensures
            r.wf(),
            r.base() == site_url@,
            r.mappings() == Map::<Seq<char>, Seq<char>>::empty(),
    {
        UrlService { store: MemoryStore::new(), site_url: site_url.to_owned() }
    }

    /// The base URL that short URLs are built on.
    pub fn site_url(&self) -> (r: &str)
        ensures
            r@ == self.base(),
    {
        self.site_url.as_str()
    }

    /// Shortens `request.url` under a freshly generated code. On success the
    /// code was new and now maps to the URL. It fails only when the drawn code
    /// was already taken: nothing changes and the answer is a server error. A
    /// service holding no well-formed short code therefore always succeeds.
    pub fn shorten(&mut self, request: &ShortenRequest) -> (r: Result<ShortenResponse, u16>)
        requires
            old(self).wf(),
        ensures
            final(self).wf(),
            final(self).base() == old(self).base(),
            match r {
                Ok(resp) => {
                    &&& is_short_code(resp.short_code@)
                    &&& resp.short_url@ == short_url_spec(old(self).base(), resp.short_code@)
                    &&& !old(self).mappings().contains_key(resp.short_code@)
                    &&& save_result(old(self).mappings(), resp.short_code@) is Ok
                    &&& final(self).mappings() == after_save(
                        old(self).mappings(),
                        resp.short_code@,
                        request.url@,
                    )
                    &&& final(self).mappings() == old(self).mappings().insert(
                        resp.short_code@,
                        request.url@,
                    )
                },
                Err(status) => {
                    &&& status == INTERNAL_SERVER_ERROR
                    &&& final(self).mappings() == old(self).mappings()
                    &&& exists|c: Seq<char>|
                        is_short_code(c) && #[trigger] old(self).mappings().contains_key(c)
                },
            },
    {
        let code = generate_short_code();
        let saved = self.store.save(code.as_str(), request.url.as_str());
        proof {
            if saved is Err {
                assert(is_short_code(code@) && old(self).mappings().contains_key(code@));
            }
        }
        shorten_outcome(self.site_url.as_str(), code, saved)
    }

    /// The entry stored under `code`, or nothing when there is none.
    pub fn resolve(&self, code: &str) -> (r: Option<UrlEntry>)
        requires
            self.wf(),
        ensures
            resolve_spec(self.mappings(), code@, r),
    {
        resolve_outcome(classify_lookup(self.store.find(code)))
    }

    /// The target of a redirect on `code`: the stored URL, or the not-found
    /// path when there is none.
    pub fn redirect(&self, code: &str) -> (r: String)
        requires
            self.wf(),
        ensures
            r@ == redirect_spec(self.mappings(), code@),
    {
        let lookup = classify_lookup(self.store.find(code));
        redirect_location(&lookup)
    }
}

} // verus!
