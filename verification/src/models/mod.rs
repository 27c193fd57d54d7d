//! Rows of the first schema.
pub mod watcher;
