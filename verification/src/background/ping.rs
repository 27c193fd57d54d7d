//! Turning the outcome of a ping into the row that logs it.
use vstd::prelude::*;

verus! {

broadcast use vstd::string::group_string_axioms;

/// The status code logged for a URL that could not be reached.
pub const CONNECTION_FAILURE_STATUS: u16 = 599;

/// Status codes below this one count as online.
pub const FIRST_ERROR_STATUS: u16 = 400;

/// The code and status logged for a ping whose response carried
/// `response_status`, or that got no response (`None`).
pub open spec fn ping_outcome(response_status: Option<u16>) -> (i64, Seq<char>) {
    let code = match response_status {
        Some(c) => c,
        None => CONNECTION_FAILURE_STATUS,
    };
    (code as i64, if code < FIRST_ERROR_STATUS {
        "online"@
    } else {
        "offline"@
    })
}

/// The code and status to log for a ping.
pub fn classify_ping(response_status: Option<u16>) -> (r: (i64, &'static str))
    ensures
        (r.0, r.1@) == ping_outcome(response_status),
        response_status matches Some(c) ==> r.0 == c && (r.1@ == "offline"@ <==> c >= 400),
{
    proof {
        if response_status is Some {
            lemma_status_decides_online(response_status->0);
        }
    }
    let status_code = match response_status {
        Some(c) => c,
        None => CONNECTION_FAILURE_STATUS,
    };
    let status = if status_code < FIRST_ERROR_STATUS {
        "online"
    } else {
        "offline"
    };
    (status_code as i64, status)
}

/// A ping that got a response is logged with the response's code, and as
/// offline exactly when that code is 400 or above: every client and server
/// error counts as offline, every informational, success or redirect code as
/// online.
pub proof fn lemma_status_decides_online(c: u16)
    ensures
        ping_outcome(Some(c)).0 == c,
        ping_outcome(Some(c)).1 == "offline"@ <==> c >= 400,
        ping_outcome(Some(c)).1 == "online"@ <==> c < 400,
{
    reveal_strlit("online");
    reveal_strlit("offline");
    assert("online"@.len() != "offline"@.len());
}

/// A ping that got no response is logged as offline with code 599.
pub proof fn lemma_unreachable_is_offline()
    ensures
        ping_outcome(None) == (599i64, "offline"@),
{
}

} // verus!
