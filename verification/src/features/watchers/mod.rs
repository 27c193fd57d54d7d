//! Watchers: URLs that the background workers ping.
pub mod watcher_handler;
pub mod watcher_handlers;

use vstd::prelude::*;

verus! {

/// A watched URL and the user who registered it.
#[derive(Clone, Debug, PartialEq, Eq)]
pub struct Watcher {
    pub id: i64,
    pub url: String,
    pub created_by: i64,
}

/// The body of a request to watch a URL.
#[derive(Clone, Debug, PartialEq, Eq)]
pub struct CreateWatcherRequest {
    pub url: String,
}

/// The answer to a new watcher: 201 with a message, or 500 with the
/// database's message.
#[derive(Clone, Debug, PartialEq, Eq)]
pub enum CreateWatcherResponse {
    Created(String),
    InternalError(String),
}

/// The watchers of a user.
#[derive(Clone, Debug, PartialEq, Eq)]
pub struct GetWatchersResult {
    pub watchers: Vec<Watcher>,
}

/// The answer to a listing: 200 with the watchers, or 500 with the
/// database's message.
#[derive(Clone, Debug, PartialEq, Eq)]
pub enum GetWatchersResponse {
    Success(GetWatchersResult),
    InternalError(String),
}

/// The watcher endpoints (`POST /watchers/create`, `GET /watchers/list`).
pub struct WatchersApi;

} // verus!
