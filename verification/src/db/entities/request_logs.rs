use vstd::prelude::*;
use crate::timestamp::Timestamp;

verus! {

/// Audit log entry of one proxied request, as stored.
#[derive(Clone, Debug)]
pub struct Model {
    pub id: i64,
    /// Token that authenticated the request.
    pub token_id: Option<i64>,
    /// Upstream the request was forwarded to.
    pub upstream_id: Option<i64>,
    /// Original inbound path.
    pub path: String,
    /// HTTP method.
    pub method: String,
    /// Upstream response status code.
    pub status_code: i32,
    /// End-to-end latency in milliseconds.
    pub latency_ms: i64,
    /// Request body size in bytes.
    pub request_size: i64,
    /// Response body size in bytes (0 for streamed responses).
    pub response_size: i64,
    pub created_at: Timestamp,
}

/// A request log entry before the store assigns its id.
#[derive(Clone, Debug)]
pub struct NewModel {
    pub token_id: Option<i64>,
    pub upstream_id: Option<i64>,
    pub path: String,
    pub method: String,
    pub status_code: i32,
    pub latency_ms: i64,
    pub request_size: i64,
    pub response_size: i64,
    pub created_at: Timestamp,
}

} // verus!
