//! Ping records of the watchers.
pub mod pings_handlers;

use vstd::prelude::*;

verus! {

/// One ping of a watcher.
#[derive(Clone, Debug, PartialEq, Eq)]
pub struct Ping {
    pub id: i64,
    pub watcher_id: i64,
    /// When the ping ran, in nanoseconds since the Unix epoch.
    pub timestamp: i128,
    /// 200 | 404 | 500 | etc
    pub status_code: i64,
    /// "online" | "offline"
    pub status: String,
}

/// The answer to a listing of pings: 200 with the pings, or 500 with the
/// database's message.
#[derive(Clone, Debug, PartialEq, Eq)]
pub enum GetPingsResponse {
    Success(Vec<Ping>),
    InternalError(String),
}

/// The ping endpoints (`GET /pings/down`).
pub struct PingsApi;

} // verus!
