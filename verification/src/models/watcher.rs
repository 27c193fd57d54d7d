//! A watcher row with its ping interval.
use vstd::prelude::*;

verus! {

/// A row of `watchers`.
#[derive(Clone, Debug, PartialEq, Eq)]
pub struct Watcher {
    pub id: i64,
    pub url: String,
    pub interval: i64,
}

} // verus!
