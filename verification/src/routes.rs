//! The system endpoint.
use vstd::prelude::*;

verus! {

broadcast use vstd::string::group_string_axioms;

/// The health check's body.
#[derive(Clone, Debug, PartialEq, Eq)]
pub struct Healthz {
    pub message: String,
}

/// The health check's answer: always 200.
#[derive(Clone, Debug, PartialEq, Eq)]
pub enum HealthResponse {
    Success(Healthz),
}

/// The system endpoint (`GET /`).
pub struct SystemApi;

impl SystemApi {
    /// Server health check.
    pub fn healthz(&self) -> (r: HealthResponse)
        ensures
            r matches HealthResponse::Success(h) && h.message@ == "server online"@,
    {
        HealthResponse::Success(Healthz { message: String::from_str("server online") })
    }
}

} // verus!
