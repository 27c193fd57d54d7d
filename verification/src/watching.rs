//! The first ping worker, which logs only offline pings.
use vstd::prelude::*;

use crate::background::ping::{CONNECTION_FAILURE_STATUS, FIRST_ERROR_STATUS};

verus! {

/// The status code of a ping: the response's, or 599 without a response.
pub fn ping_status_code(response_status: Option<u16>) -> (c: u16)
    ensures
        c == match response_status {
            Some(s) => s,
            None => CONNECTION_FAILURE_STATUS,
        },
{
    match response_status {
        Some(s) => s,
        None => CONNECTION_FAILURE_STATUS,
    }
}

/// Only a status code of 400 or more is logged, as offline.
pub fn logs_offline(status_code: u16) -> (b: bool)
    ensures
        b == (status_code >= FIRST_ERROR_STATUS),
{
    status_code >= FIRST_ERROR_STATUS
}

} // verus!
