//! Creating a watcher row.
use vstd::prelude::*;

use crate::helpers::DbError;

verus! {

/// The id of the created watcher, or `None` where the insert failed.
pub fn create_watcher(inserted: Result<i64, DbError>) -> (r: Option<i64>)
    ensures
        r == match inserted {
            Ok(id) => Some(id),
            Err(_) => None::<i64>,
        },
{
    match inserted {
        Ok(id) => Some(id),
        Err(_) => None,
    }
}

} // verus!
