pub mod bench;
pub mod metrics;
pub mod pings;
pub mod stats;
pub mod users;
pub mod watchers;
