use vstd::prelude::*;

use crate::text::{decimal_of, push_decimal_i64, push_str_chars, string_of};

verus! {

/// Unified application error type. Causes that come from the store or from
/// internal failures are carried as their rendered message.
#[derive(Clone, Debug)]
pub enum AppError {
    Database(String),
    UpstreamNotFound { id: i64 },
    TokenNotFound { id: i64 },
    RouteRuleNotFound { id: i64 },
    Unauthorized,
    RateLimitExceeded,
    NoAvailableUpstream,
    UpstreamUnavailable(String),
    RewriteError(String),
    ProxyError(String),
    Internal(String),
}

/// The HTTP status each error is answered with.
pub open spec fn status_of(e: AppError) -> u16 {
    match e {
        AppError::Unauthorized => 401,
        AppError::RateLimitExceeded => 429,
        AppError::UpstreamNotFound { .. } => 404,
        AppError::TokenNotFound { .. } => 404,
        AppError::RouteRuleNotFound { .. } => 404,
        AppError::NoAvailableUpstream => 502,
        AppError::UpstreamUnavailable(_) => 502,
        AppError::ProxyError(_) => 502,
        _ => 500,
    }
}

/// The machine-readable code each error is answered with.
pub open spec fn code_of(e: AppError) -> Seq<char> {
    match e {
        AppError::Database(_) => "DATABASE_ERROR"@,
        AppError::UpstreamNotFound { .. } => "UPSTREAM_NOT_FOUND"@,
        AppError::TokenNotFound { .. } => "TOKEN_NOT_FOUND"@,
        AppError::RouteRuleNotFound { .. } => "ROUTE_RULE_NOT_FOUND"@,
        AppError::Unauthorized => "UNAUTHORIZED"@,
        AppError::RateLimitExceeded => "RATE_LIMIT_EXCEEDED"@,
        AppError::NoAvailableUpstream => "NO_AVAILABLE_UPSTREAM"@,
        AppError::UpstreamUnavailable(_) => "UPSTREAM_UNAVAILABLE"@,
        AppError::RewriteError(_) => "REWRITE_ERROR"@,
        AppError::ProxyError(_) => "PROXY_ERROR"@,
        AppError::Internal(_) => "INTERNAL_ERROR"@,
    }
}

/// The human-readable message of each error.
pub open spec fn message_of(e: AppError) -> Seq<char> {
    match e {
        AppError::Database(m) => "Database error: "@ + m@,
        AppError::UpstreamNotFound { id } => "Upstream not found: id="@ + decimal_of(id as int),
        AppError::TokenNotFound { id } => "Token not found: id="@ + decimal_of(id as int),
        AppError::RouteRuleNotFound { id } => "Route rule not found: id="@ + decimal_of(id as int),
        AppError::Unauthorized => "Authentication failed"@,
        AppError::RateLimitExceeded => "Rate limit exceeded"@,
        AppError::NoAvailableUpstream => "No available upstream"@,
        AppError::UpstreamUnavailable(m) => "Upstream unavailable: "@ + m@,
        AppError::RewriteError(m) => "Route rewrite failed: "@ + m@,
        AppError::ProxyError(m) => "Proxy request failed: "@ + m@,
        AppError::Internal(m) => m@,
    }
}

impl AppError {
    /// HTTP status code of the error response.
    pub fn status_code(&self) -> (s: u16)
        ensures
            s == status_of(*self),
    {
        match self {
            AppError::Unauthorized => 401,
            AppError::RateLimitExceeded => 429,
            AppError::UpstreamNotFound { .. } => 404,
            AppError::TokenNotFound { .. } => 404,
            AppError::RouteRuleNotFound { .. } => 404,
            AppError::NoAvailableUpstream => 502,
            AppError::UpstreamUnavailable(_) => 502,
            AppError::ProxyError(_) => 502,
            _ => 500,
        }
    }

    /// Machine-readable error code of the error response.
    pub fn error_code(&self) -> (c: &'static str)
        ensures
            c@ == code_of(*self),
    {
        match self {
            AppError::Database(_) => "DATABASE_ERROR",
            AppError::UpstreamNotFound { .. } => "UPSTREAM_NOT_FOUND",
            AppError::TokenNotFound { .. } => "TOKEN_NOT_FOUND",
            AppError::RouteRuleNotFound { .. } => "ROUTE_RULE_NOT_FOUND",
            AppError::Unauthorized => "UNAUTHORIZED",
            AppError::RateLimitExceeded => "RATE_LIMIT_EXCEEDED",
            AppError::NoAvailableUpstream => "NO_AVAILABLE_UPSTREAM",
            AppError::UpstreamUnavailable(_) => "UPSTREAM_UNAVAILABLE",
            AppError::RewriteError(_) => "REWRITE_ERROR",
            AppError::ProxyError(_) => "PROXY_ERROR",
            AppError::Internal(_) => "INTERNAL_ERROR",
        }
    }

    /// Human-readable message of the error.
    pub fn message(&self) -> (m: String)
        ensures
            m@ == message_of(*self),
    {
        let mut out: Vec<char> = Vec::new();
        match self {
            AppError::Database(m) => {
                push_str_chars(&mut out, "Database error: ");
                push_str_chars(&mut out, m.as_str());
            },
            AppError::UpstreamNotFound { id } => {
                push_str_chars(&mut out, "Upstream not found: id=");
                push_decimal_i64(&mut out, *id);
            },
            AppError::TokenNotFound { id } => {
                push_str_chars(&mut out, "Token not found: id=");
                push_decimal_i64(&mut out, *id);
            },
            AppError::RouteRuleNotFound { id } => {
                push_str_chars(&mut out, "Route rule not found: id=");
                push_decimal_i64(&mut out, *id);
            },
            AppError::Unauthorized => {
                push_str_chars(&mut out, "Authentication failed");
            },
            AppError::RateLimitExceeded => {
                push_str_chars(&mut out, "Rate limit exceeded");
            },
            AppError::NoAvailableUpstream => {
                push_str_chars(&mut out, "No available upstream");
            },
            AppError::UpstreamUnavailable(m) => {
                push_str_chars(&mut out, "Upstream unavailable: ");
                push_str_chars(&mut out, m.as_str());
            },
            AppError::RewriteError(m) => {
                push_str_chars(&mut out, "Route rewrite failed: ");
                push_str_chars(&mut out, m.as_str());
            },
            AppError::ProxyError(m) => {
                push_str_chars(&mut out, "Proxy request failed: ");
                push_str_chars(&mut out, m.as_str());
            },
            AppError::Internal(m) => {
                push_str_chars(&mut out, m.as_str());
            },
        }
        assert(out@ =~= message_of(*self));
        string_of(out.as_slice())
    }
}

} // verus!
