//! The answer of the endpoint that inserts a watcher directly.
use vstd::prelude::*;

use crate::features::watchers::watcher_handlers::{added_message, watcher_added_message};
use crate::helpers::DbError;

verus! {

broadcast use vstd::string::group_string_axioms;

/// `format!("Could not save new watcher. Error: {e}")`.
pub open spec fn not_saved_message(e: Seq<char>) -> Seq<char> {
    "Could not save new watcher. Error: "@ + e
}

/// The answer once the insert has run.
pub fn add_watcher(inserted: Result<i64, DbError>) -> (m: String)
    ensures
        m@ == match inserted {
            Ok(id) => added_message(id as int),
            Err(e) => not_saved_message(e.message@),
        },
{
    match inserted {
        Ok(id) => watcher_added_message(id),
        Err(e) => {
            let mut m = String::from_str("Could not save new watcher. Error: ");
            m.append(e.message.as_str());
            m
        },
    }
}

} // verus!
