//! The hourly clean-up of old pings and uptime records.
use vstd::prelude::*;

use crate::clock::{checked_sub_days, is_timestamp, NANOS_PER_DAY};

verus! {

/// Days of pings and uptime records that are kept.
pub const RETENTION_DAYS: i64 = 7;

/// Seconds between clean-ups.
pub const GC_INTERVAL_SECS: u64 = 3600;

/// Records older than this are deleted: seven days before `now`, or `None`
/// (and nothing is deleted) where that lies before the earliest
/// `DateTime<Utc>`.
pub fn gc_cutoff(now: i128) -> (r: Option<i128>)
    requires
        is_timestamp(now as int),
    ensures
        r matches Some(c) ==> c == now - RETENTION_DAYS * NANOS_PER_DAY,
        r is None <==> !is_timestamp(now - RETENTION_DAYS * NANOS_PER_DAY),
{
    checked_sub_days(now, RETENTION_DAYS)
}

} // verus!
