use vstd::prelude::*;
use crate::timestamp::Timestamp;

verus! {

/// Result of a single upstream health probe, as stored.
#[derive(Clone, Debug)]
pub struct Model {
    pub id: i64,
    pub upstream_id: i64,
    pub checked_at: Timestamp,
    /// Whether the probe succeeded.
    pub success: bool,
    /// Round-trip latency in milliseconds (`None` on failure).
    pub latency_ms: Option<i64>,
    /// Error description when the probe failed.
    pub error_message: Option<String>,
}

/// A health record before the store assigns its id.
#[derive(Clone, Debug)]
pub struct NewModel {
    pub upstream_id: i64,
    pub checked_at: Timestamp,
    pub success: bool,
    pub latency_ms: Option<i64>,
    pub error_message: Option<String>,
}

} // verus!
