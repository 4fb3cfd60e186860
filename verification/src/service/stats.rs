use vstd::prelude::*;

use crate::db::entities::request_logs::NewModel;
use crate::timestamp::{now, Timestamp};

verus! {

/// Number of most recent request logs listed by the admin API.
pub fn recent_logs_limit() -> (n: u64)
    ensures
        n == 1000,
{
    1000
}

/// The audit log entry of a completed proxy request, at time `t`.
pub fn request_log_at(
    token_id: Option<i64>,
    upstream_id: Option<i64>,
    path: String,
    method: String,
    status_code: i32,
    latency_ms: i64,
    request_size: i64,
    response_size: i64,
    t: Timestamp,
) -> (m: NewModel)
    ensures
        m == (NewModel {
            token_id,
            upstream_id,
            path,
            method,
            status_code,
            latency_ms,
            request_size,
            response_size,
            created_at: t,
        }),
{
    NewModel {
        token_id,
        upstream_id,
        path,
        method,
        status_code,
        latency_ms,
        request_size,
        response_size,
        created_at: t,
    }
}

/// Record a completed proxy request: the audit log entry to store, stamped
/// with the current time.
pub fn record_request(
    token_id: Option<i64>,
    upstream_id: Option<i64>,
    path: String,
    method: String,
    status_code: i32,
    latency_ms: i64,
    request_size: i64,
    response_size: i64,
) -> (m: NewModel)
    ensures
        m == (NewModel {
            token_id,
            upstream_id,
            path,
            method,
            status_code,
            latency_ms,
            request_size,
            response_size,
            created_at: m.created_at,
        }),
{
    request_log_at(
        token_id,
        upstream_id,
        path,
        method,
        status_code,
        latency_ms,
        request_size,
        response_size,
        now(),
    )
}

} // verus!
