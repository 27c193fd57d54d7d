//! The answer of the offline-pings endpoint.
use vstd::prelude::*;

use super::{GetPingsResponse, Ping};
use crate::helpers::DbError;

verus! {

/// Which offline pings to list: those of one watcher, or all.
#[derive(Clone, Copy, Debug, PartialEq, Eq)]
pub enum DownPingsQuery {
    OfWatcher(i64),
    All,
}

/// The query for an optional `watcher_id` parameter.
pub fn down_pings_query(watcher_id: Option<i64>) -> (q: DownPingsQuery)
    ensures
        q == match watcher_id {
            Some(id) => DownPingsQuery::OfWatcher(id),
            None => DownPingsQuery::All,
        },
{
    match watcher_id {
        Some(id) => DownPingsQuery::OfWatcher(id),
        None => DownPingsQuery::All,
    }
}

/// The answer once the pings have been read.
pub fn get_down_pings(found: Result<Vec<Ping>, DbError>) -> (r: GetPingsResponse)
    ensures
        match found {
            Ok(ps) => r matches GetPingsResponse::Success(v) && v@ == ps@,
            Err(e) => r matches GetPingsResponse::InternalError(m) && m@ == e.message@,
        },
{
    match found {
        Ok(pings) => GetPingsResponse::Success(pings),
        Err(e) => GetPingsResponse::InternalError(e.message),
    }
}

} // verus!
