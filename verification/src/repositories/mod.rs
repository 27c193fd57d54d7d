//! Decisions of the first schema's repositories.
pub mod pings_repository;
pub mod watcher_repository;
