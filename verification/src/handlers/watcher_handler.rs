//! A watcher with a ping interval, as the first API accepts it.
use vstd::prelude::*;

use crate::features::watchers::watcher_handlers::added_message;

verus! {

broadcast use vstd::string::group_string_axioms;

/// The body of a request to watch `url` every `interval` seconds.
#[derive(Clone, Debug, PartialEq, Eq)]
pub struct Watcher {
    pub url: String,
    pub interval: u64,
}

/// The interval as the database stores it: the bits of the `u64` read as an
/// `i64` (`interval as i64`).
pub fn interval_column(interval: u64) -> (c: i64)
    ensures
        c == interval as i64,
{
    interval as i64
}

/// The answer to a watcher that was (`Some(id)`) or was not saved.
pub fn add_watcher(saved: Option<i64>) -> (m: String)
    ensures
        m@ == match saved {
            Some(id) => added_message(id as int),
            None => "Could not save new watcher"@,
        },
{
    crate::features::watchers::watcher_handler::add_watcher(saved)
}

} // verus!
