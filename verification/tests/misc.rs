use api_transit::api::stats_api::{default_history_limit, default_limit, HistoryQuery, LogsQuery};
use api_transit::config::{parse_decimal, AppConfig, ConfigError};
use api_transit::db::entities::upstreams;
use api_transit::db::{pool_bounds, sqlite_file_path};
use api_transit::error::AppError;
use api_transit::health::scheduler::{health_record, health_record_at, probe_outcome, upstreams_to_check};
use api_transit::mock::{mock_routes, mock_tokens_at, mock_upstreams_at};
use api_transit::service::route_rule::{apply_rule_update, new_rule, UpsertRouteRuleDto};
use api_transit::service::stats::{record_request, request_log_at};
use api_transit::service::token::hash_token;
use api_transit::timestamp::Timestamp;

fn ts(secs: i64) -> Timestamp {
    Timestamp { secs, nanos: 0 }
}

#[test]
fn error_responses() {
    let e = AppError::UpstreamNotFound { id: -5 };
    assert_eq!((e.status_code(), e.error_code()), (404, "UPSTREAM_NOT_FOUND"));
    assert_eq!(e.message(), "Upstream not found: id=-5");
    assert_eq!(AppError::TokenNotFound { id: 12 }.message(), "Token not found: id=12");
    assert_eq!(AppError::RouteRuleNotFound { id: i64::MIN }.message(), "Route rule not found: id=-9223372036854775808");
    assert_eq!(AppError::Unauthorized.status_code(), 401);
    assert_eq!(AppError::RateLimitExceeded.status_code(), 429);
    assert_eq!(AppError::NoAvailableUpstream.status_code(), 502);
    assert_eq!(AppError::ProxyError("x".to_string()).message(), "Proxy request failed: x");
    assert_eq!(AppError::Database("gone".to_string()).status_code(), 500);
    assert_eq!(AppError::Database("gone".to_string()).message(), "Database error: gone");
    assert_eq!(AppError::Internal("boom".to_string()).error_code(), "INTERNAL_ERROR");
    assert_eq!(AppError::RewriteError("r".to_string()).status_code(), 500);
    assert_eq!(AppError::UpstreamUnavailable("u".to_string()).error_code(), "UPSTREAM_UNAVAILABLE");
}

#[test]
fn config_defaults_and_errors() {
    let c = AppConfig::from_settings(None, None, Some("s".to_string()), None).unwrap();
    assert_eq!(c.server_port, 8080);
    assert_eq!(c.database_url, "sqlite://data/api_transit.db");
    assert_eq!(c.health_check_interval_secs, 1800);
    let c = AppConfig::from_settings(Some("+81".to_string()), Some("postgresql://x".to_string()), Some("s".to_string()), Some("60".to_string())).unwrap();
    assert_eq!((c.server_port, c.health_check_interval_secs), (81, 60));
    assert_eq!(AppConfig::from_settings(Some("70000".to_string()), None, Some("s".to_string()), None).unwrap_err(), ConfigError::InvalidServerPort);
    assert_eq!(AppConfig::from_settings(None, None, None, None).unwrap_err(), ConfigError::MissingAdminSecret);
    assert_eq!(AppConfig::from_settings(None, None, Some("s".to_string()), Some("-1".to_string())).unwrap_err(), ConfigError::InvalidHealthCheckInterval);
    assert_eq!(ConfigError::InvalidServerPort.message(), "SERVER_PORT must be a valid port number");
}

#[test]
fn decimal_parsing_matches_str_parse() {
    for s in ["0", "65535", "65536", "+7", "+", "", "-0", " 1", "1 ", "007", "18446744073709551615", "18446744073709551616"] {
        assert_eq!(parse_decimal(s, u64::MAX), s.parse::<u64>().ok(), "{}", s);
        assert_eq!(parse_decimal(s, 65535).map(|v| v as u16), s.parse::<u16>().ok(), "{}", s);
    }
}

#[test]
fn database_url_helpers() {
    assert_eq!(pool_bounds("sqlite://data/x.db"), (1, 1));
    assert_eq!(pool_bounds("postgresql://db"), (2, 20));
    assert_eq!(sqlite_file_path("sqlite://data/x.db").as_deref(), Some("data/x.db"));
    assert_eq!(sqlite_file_path("sqlite://sqlite://x").as_deref(), Some("x"));
    assert_eq!(sqlite_file_path("mysql://x"), None);
}

fn up(id: i64, enabled: bool) -> upstreams::Model {
    upstreams::Model {
        id,
        name: "u".to_string(),
        base_url: "http://u".to_string(),
        api_key: None,
        extra_headers: None,
        timeout_secs: 30,
        weight: 1,
        priority: 0,
        lb_strategy: "round_robin".to_string(),
        enabled,
        is_healthy: true,
        created_at: ts(0),
        updated_at: ts(0),
    }
}

#[test]
fn health_round() {
    let ids: Vec<i64> = upstreams_to_check(vec![up(1, true), up(2, false), up(3, true)]).iter().map(|u| u.id).collect();
    assert_eq!(ids, vec![1, 3]);
    assert_eq!(probe_outcome(Ok((404, "404 Not Found".to_string()))), Ok(()));
    assert_eq!(probe_outcome(Ok((200, "200 OK".to_string()))), Ok(()));
    assert_eq!(
        probe_outcome(Ok((503, "503 Service Unavailable".to_string()))),
        Err("upstream returned server error: 503 Service Unavailable".to_string())
    );
    assert_eq!(probe_outcome(Err("timed out".to_string())), Err("timed out".to_string()));
    let ok = health_record_at(7, &Ok(()), 12, ts(5));
    assert!(ok.success);
    assert_eq!(ok.latency_ms, Some(12));
    assert_eq!(ok.error_message, None);
    assert_eq!(ok.checked_at, ts(5));
    let bad = health_record(7, &Err("down".to_string()), 12);
    assert!(!bad.success);
    assert_eq!(bad.latency_ms, None);
    assert_eq!(bad.error_message.as_deref(), Some("down"));
}

#[test]
fn query_limits() {
    assert_eq!(default_limit(), 100);
    assert_eq!(default_history_limit(), 50);
    assert_eq!(LogsQuery { limit: 5000 }.effective_limit(), 1000);
    assert_eq!(LogsQuery { limit: 10 }.effective_limit(), 10);
    assert_eq!(HistoryQuery { limit: 201 }.effective_limit(), 200);
    assert_eq!(HistoryQuery { limit: 7 }.effective_limit(), 7);
}

#[test]
fn route_rule_records() {
    let dto = UpsertRouteRuleDto {
        name: "r".to_string(),
        inbound_path: "/a".to_string(),
        outbound_path: "/b".to_string(),
        match_type: None,
        upstream_id: Some(3),
        priority: None,
        extra_headers: None,
        extra_query: None,
        enabled: None,
    };
    let m = new_rule(dto.clone(), ts(2));
    assert_eq!(m.match_type, "exact");
    assert_eq!(m.priority, 0);
    assert!(m.enabled);
    let existing = api_transit::db::entities::route_rules::Model {
        id: 9,
        name: "old".to_string(),
        inbound_path: "/o".to_string(),
        outbound_path: "/o".to_string(),
        match_type: "prefix".to_string(),
        upstream_id: None,
        priority: 5,
        extra_headers: None,
        extra_query: None,
        enabled: false,
        created_at: ts(1),
        updated_at: ts(1),
    };
    let u = apply_rule_update(existing, dto, ts(3));
    assert_eq!(u.id, 9);
    assert_eq!(u.match_type, "exact");
    assert_eq!(u.priority, 0);
    assert!(!u.enabled);
    assert_eq!(u.inbound_path, "/a");
    assert_eq!(u.updated_at, ts(3));
    assert_eq!(u.created_at, ts(1));
}

#[test]
fn request_log_records() {
    let m = request_log_at(Some(1), Some(2), "/p".to_string(), "POST".to_string(), 200, 15, 100, 0, ts(4));
    assert_eq!((m.token_id, m.upstream_id, m.status_code, m.latency_ms, m.request_size, m.response_size), (Some(1), Some(2), 200, 15, 100, 0));
    assert_eq!(m.created_at, ts(4));
    let r = record_request(None, None, "/q".to_string(), "GET".to_string(), 502, 1, 0, 0);
    assert_eq!(r.path, "/q");
}

#[test]
fn mock_seed_data() {
    let ups = mock_upstreams_at(ts(10));
    assert_eq!(ups.len(), 3);
    assert_eq!(ups[1].lb_strategy, "weighted");
    assert!(!ups[2].is_healthy);
    assert_eq!(ups[2].api_key, None);
    let routes = mock_routes();
    assert_eq!(routes[2].match_type, "prefix");
    assert_eq!(routes[0].upstream_id, Some(1));
    let tokens = mock_tokens_at(ts(10));
    assert_eq!(tokens[1].0.expires_at, Some(ts(10 + 30 * 86400)));
    for (m, raw) in &tokens {
        assert_eq!(m.token_hash, hash_token(raw));
    }
}
