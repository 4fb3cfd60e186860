use vstd::prelude::*;

verus! {

/// Query of `GET /admin/stats/requests`.
#[derive(Clone, Copy, Debug, PartialEq, Eq, Structural)]
pub struct LogsQuery {
    pub limit: u64,
}

/// Query of `GET /admin/health/{upstream_id}/history`.
#[derive(Clone, Copy, Debug, PartialEq, Eq, Structural)]
pub struct HistoryQuery {
    pub limit: u64,
}

/// Number of request logs listed when the query gives no limit.
pub fn default_limit() -> (n: u64)
    ensures
        n == 100,
{
    100
}

/// Number of health records listed when the query gives no limit.
pub fn default_history_limit() -> (n: u64)
    ensures
        n == 50,
{
    50
}

impl LogsQuery {
    /// The limit applied: the requested one, at most 1000.
    pub fn effective_limit(&self) -> (n: u64)
        ensures
            n == (if self.limit < 1000 { self.limit } else { 1000 }),
    {
        if self.limit < 1000 {
            self.limit
        } else {
            1000
        }
    }
}

impl HistoryQuery {
    /// The limit applied: the requested one, at most 200.
    pub fn effective_limit(&self) -> (n: u64)
        ensures
            n == (if self.limit < 200 { self.limit } else { 200 }),
    {
        if self.limit < 200 {
            self.limit
        } else {
            200
        }
    }
}

} // verus!
