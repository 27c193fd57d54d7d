//! The plain-text answer of the first watcher endpoint.
use vstd::prelude::*;

use super::watcher_handlers::{added_message, watcher_added_message};

verus! {

broadcast use vstd::string::group_string_axioms;

/// A watcher as that endpoint reads it.
#[derive(Clone, Debug, PartialEq, Eq)]
pub struct Watcher {
    pub id: i64,
    pub url: String,
}

/// The answer to a watcher that was (`Some(id)`) or was not saved.
pub fn add_watcher(saved: Option<i64>) -> (m: String)
    ensures
        m@ == match saved {
            Some(id) => added_message(id as int),
            None => "Could not save new watcher"@,
        },
{
    match saved {
        Some(id) => watcher_added_message(id),
        None => String::from_str("Could not save new watcher"),
    }
}

} // verus!
