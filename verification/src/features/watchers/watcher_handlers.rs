//! Answers of the watcher endpoints.
use vstd::prelude::*;

use super::{CreateWatcherResponse, GetWatchersResponse, GetWatchersResult, Watcher};
use crate::helpers::DbError;
use crate::text::{int_decimal, push_i64_decimal};

verus! {

broadcast use vstd::string::group_string_axioms;

/// `format!("Watcher added with id: {id}")`.
pub open spec fn added_message(id: int) -> Seq<char> {
    "Watcher added with id: "@ + int_decimal(id)
}

/// The message that announces a new watcher.
pub fn watcher_added_message(id: i64) -> (m: String)
    ensures
        m@ == added_message(id as int),
{
    let mut m = String::from_str("Watcher added with id: ");
    push_i64_decimal(&mut m, id);
    m
}

/// The answer once the insert of a watcher has run.
pub fn post_watcher(inserted: Result<i64, DbError>) -> (r: CreateWatcherResponse)
    ensures
        match inserted {
            Ok(id) => r matches CreateWatcherResponse::Created(m) && m@ == added_message(id as int),
            Err(e) => r matches CreateWatcherResponse::InternalError(m) && m@ == e.message@,
        },
{
    match inserted {
        Ok(id) => CreateWatcherResponse::Created(watcher_added_message(id)),
        Err(e) => CreateWatcherResponse::InternalError(e.message),
    }
}

/// The answer once the watchers of a user have been read.
pub fn get_my_watchers(found: Result<Vec<Watcher>, DbError>) -> (r: GetWatchersResponse)
    ensures
        match found {
            Ok(ws) => r matches GetWatchersResponse::Success(res) && res.watchers@ == ws@,
            Err(e) => r matches GetWatchersResponse::InternalError(m) && m@ == e.message@,
        },
{
    match found {
        Ok(watchers) => GetWatchersResponse::Success(GetWatchersResult { watchers }),
        Err(e) => GetWatchersResponse::InternalError(e.message),
    }
}

} // verus!
