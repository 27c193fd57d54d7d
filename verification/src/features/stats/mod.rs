//! The cached statistics payload served as JSON.
use vstd::prelude::*;

use std::sync::Arc;

verus! {

broadcast use vstd::string::group_string_axioms;

/// The latest statistics payload, `{}` until one is set.
///
/// The payload is replaced through `&mut self`; a process that shares one
/// cache between tasks puts it behind a lock.
pub struct StatsCache {
    payload: String,
}

impl View for StatsCache {
    type V = Seq<char>;

    closed spec fn view(&self) -> Seq<char> {
        self.payload@
    }
}

/// The payload of a fresh cache.
pub open spec fn empty_stats() -> Seq<char> {
    seq!['{', '}']
}

impl StatsCache {
    /// A cache that holds `{}`.
    pub fn new() -> (c: Self)
        ensures
            c@ == empty_stats(),
    {
        proof {
            reveal_strlit("{}");
        }
        let c = StatsCache { payload: String::from_str("{}") };
        assert(c@ =~= empty_stats());
        c
    }

    /// Replaces the payload.
    pub fn set_payload(&mut self, new_payload: String)
        ensures
            final(self)@ == after_set(old(self)@, new_payload@),
    {
        self.payload = new_payload;
    }

    /// The current payload.
    pub fn get_payload(&self) -> (p: Arc<String>)
        ensures
            (*p)@ == read_payload(self@),
    {
        Arc::new(self.payload.clone())
    }
}

impl Default for StatsCache {
    fn default() -> (c: Self)
        ensures
            c@ == empty_stats(),
    {
        Self::new()
    }
}

/// The cache's content after `set_payload(p)` on a cache that held `held`.
pub open spec fn after_set(held: Seq<char>, p: Seq<char>) -> Seq<char> {
    p
}

/// What `get_payload()` reads from a cache that holds `held`.
pub open spec fn read_payload(held: Seq<char>) -> Seq<char> {
    held
}

/// What a read gives back of a write: after `set_payload(p)`,
/// `get_payload()` is `p`, whatever the cache held before.
pub proof fn lemma_get_after_set(held: Seq<char>, p: Seq<char>)
    ensures
        read_payload(after_set(held, p)) == p,
{
}

} // verus!
