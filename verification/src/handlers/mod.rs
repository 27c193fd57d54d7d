//! Handlers of the first API.
pub mod add_watcher;
pub mod watcher_handler;
