//! The decisions of the background workers.
pub mod garbage_collector;
pub mod heartbeat;
pub mod ping;
