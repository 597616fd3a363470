//! A write-once mapping store held in memory.
use crate::models::UrlEntry;
use vstd::prelude::*;

verus! {

/// Why a store operation failed.
#[derive(Debug, Clone, Copy, PartialEq, Eq, Structural)]
pub enum StoreError {
    /// The short code is already taken.
    Conflict,
    /// The persistence backend failed.
    Backend,
}

/// What `save(code, _)` answers on a store whose contents are `m`.
pub open spec fn save_result(m: Map<Seq<char>, Seq<char>>, code: Seq<char>) -> Result<(), StoreError> {
    if m.contains_key(code) {
        Err(StoreError::Conflict)
    } else {
        Ok(())
    }
}

/// The contents after `save(code, url)` on a store whose contents are `m`:
/// a new code is added, a taken one leaves everything as it was.
pub open spec fn after_save(
    m: Map<Seq<char>, Seq<char>>,
    code: Seq<char>,
    url: Seq<char>,
) -> Map<Seq<char>, Seq<char>> {
    if m.contains_key(code) {
        m
    } else {
        m.insert(code, url)
    }
}

/// The URL stored under `code`, if any.
pub open spec fn stored_url(m: Map<Seq<char>, Seq<char>>, code: Seq<char>) -> Option<Seq<char>> {
    if m.contains_key(code) {
        Some(m[code])
    } else {
        None
    }
}

/// Saving under a code that is already taken fails with a conflict and leaves
/// the URL stored under it, and every other mapping, as it was.
pub proof fn lemma_taken_code_conflicts(m: Map<Seq<char>, Seq<char>>, code: Seq<char>, url: Seq<char>)
    requires
        m.contains_key(code),
    ensures
        save_result(m, code) == Err::<(), StoreError>(StoreError::Conflict),
        after_save(m, code, url) == m,
        stored_url(after_save(m, code, url), code) == stored_url(m, code),
{
}

/// Two saves of different URLs under one code never both succeed, and after
/// both the first URL saved is the one stored.
pub proof fn lemma_write_once(
    m: Map<Seq<char>, Seq<char>>,
    code: Seq<char>,
    first: Seq<char>,
    second: Seq<char>,
)
    ensures
        !(save_result(m, code) is Ok && save_result(after_save(m, code, first), code) is Ok),
        save_result(m, code) is Ok ==> stored_url(
            after_save(after_save(m, code, first), code, second),
            code,
        ) == Some(first),
{
}

/// Classifies a failed insert: a unique-key violation is a conflict, anything
/// else a backend failure.
pub fn store_error_of(unique_violation: bool) -> (r: StoreError)
    ensures
        r == (if unique_violation {
            StoreError::Conflict
        } else {
            StoreError::Backend
        }),
{
    if unique_violation {
        StoreError::Conflict
    } else {
        StoreError::Backend
    }
}

/// Mappings kept in insertion order, each code at most once.
pub struct MemoryStore {
    entries: Vec<UrlEntry>,
    contents: Ghost<Map<Seq<char>, Seq<char>>>,
}

impl View for MemoryStore {
    type V = Map<Seq<char>, Seq<char>>;

    closed spec fn view(&self) -> Map<Seq<char>, Seq<char>> {
        self.contents@
    }
}

impl MemoryStore {
    /// The entries hold distinct codes and are exactly the contents.
    pub closed spec fn wf(&self) -> bool {
        &&& forall|i: int, j: int|
            0 <= i < j < self.entries@.len() ==> #[trigger] self.entries@[i].short_code@
                != #[trigger] self.entries@[j].short_code@
        &&& forall|i: int|
            0 <= i < self.entries@.len() ==> {
                &&& self.contents@.contains_key(#[trigger] self.entries@[i].short_code@)
                &&& self.contents@[self.entries@[i].short_code@] == self.entries@[i].original_url@
            }
        &&& forall|k: Seq<char>|
            #[trigger] self.contents@.contains_key(k) ==> exists|i: int|
                0 <= i < self.entries@.len() && #[trigger] self.entries@[i].short_code@ == k
    }

    /// An empty store.
    pub fn new() -> (r: MemoryStore)
        ensures
            r.wf(),
            r@ == Map::<Seq<char>, Seq<char>>::empty(),
    {
        MemoryStore { entries: Vec::new(), contents: Ghost(Map::empty()) }
    }

    /// Position of the entry with this code, if there is one.
    fn position(&self, code: &str) -> (r: Option<usize>)
        requires
            self.wf(),
        ensures
            match r {
                Some(i) => i < self.entries@.len() && self.entries@[i as int].short_code@ == code@,
                None => !self@.contains_key(code@),
            },
    {
        let key = code.to_owned();
        let mut i: usize = 0;
        while i < self.entries.len()
            invariant
                self.wf(),
                key@ == code@,
                i <= self.entries@.len(),
                forall|j: int| 0 <= j < i ==> #[trigger] self.entries@[j].short_code@ != code@,
            decreases self.entries@.len() - i,
        {
            if self.entries[i].short_code == key {
                return Some(i);
            }
            i = i + 1;
        }
        None
    }

    /// Stores `url` under `code` unless the code is already taken, in which
    /// case nothing changes and the answer is a conflict.
    pub fn save(&mut self, code: &str, url: &str) -> (r: Result<(), StoreError>)
        requires
            old(self).wf(),
        ensures
            final(self).wf(),
            r == save_result(old(self)@, code@),
            final(self)@ == after_save(old(self)@, code@, url@),
    {
        match self.position(code) {
            Some(_) => Err(StoreError::Conflict),
            None => {
                let ghost before = self.entries@;
                self.entries.push(UrlEntry::new(code, url));
                self.contents = Ghost(self.contents@.insert(code@, url@));
                assert forall|k: Seq<char>| #[trigger] self.contents@.contains_key(k) implies exists|i: int|
                    0 <= i < self.entries@.len() && #[trigger] self.entries@[i].short_code@ == k by {
                    if k == code@ {
                        assert(self.entries@[before.len() as int].short_code@ == k);
                    } else {
                        assert(old(self).contents@.contains_key(k));
                        let i = choose|i: int| 0 <= i < before.len() && #[trigger] before[i].short_code@ == k;
                        assert(self.entries@[i].short_code@ == k);
                    }
                }
                Ok(())
            },
        }
    }

    /// The entry stored under `code`, if any. A store in memory never reports
    /// a backend failure.
    pub fn find(&self, code: &str) -> (r: Result<Option<UrlEntry>, StoreError>)
        requires
            self.wf(),
        ensures
            match r {
                Ok(Some(e)) => e.short_code@ == code@ && stored_url(self@, code@) == Some(e.original_url@),
                Ok(None) => stored_url(self@, code@) is None,
                Err(_) => false,
            },
    {
        match self.position(code) {
            Some(i) => Ok(Some(self.entries[i].copy())),
            None => Ok(None),
        }
    }
}

} // verus!
