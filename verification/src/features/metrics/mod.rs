//! System metrics: the computations behind the metrics endpoints.
pub mod metrics_handlers;

use vstd::prelude::*;

verus! {

/// The metrics endpoints (`GET /metrics`, `GET /metrics/stream`).
pub struct MetricsApi;

} // verus!
