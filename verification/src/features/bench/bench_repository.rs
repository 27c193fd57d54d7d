//! Counts over the whole database.
use vstd::prelude::*;

verus! {

/// Row counts of the light benchmark query.
#[derive(Clone, Copy, Debug, PartialEq, Eq)]
pub struct LightResult {
    pub user_count: i64,
    pub watcher_count: i64,
    pub ping_count: i64,
    pub online_count: i64,
    pub offline_count: i64,
}

} // verus!
