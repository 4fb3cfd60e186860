pub mod api_tokens;
pub mod health_records;
pub mod request_logs;
pub mod route_rules;
pub mod upstreams;
