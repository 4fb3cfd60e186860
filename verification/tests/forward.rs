use api_transit::api::proxy::{plan_route, response_headers, response_status, route_upstream};
use std::sync::atomic::{AtomicUsize, Ordering};
use api_transit::db::entities::{route_rules, upstreams};
use api_transit::error::AppError;
use api_transit::proxy::forward::{header_name_canonical, header_value_ok, plan_forward, target_url};
use api_transit::timestamp::Timestamp;

fn ts() -> Timestamp {
    Timestamp { secs: 0, nanos: 0 }
}

fn upstream(api_key: Option<&str>, extra: Option<&str>) -> upstreams::Model {
    upstreams::Model {
        id: 1,
        name: "u".to_string(),
        base_url: "https://api.example.com//".to_string(),
        api_key: api_key.map(|s| s.to_string()),
        extra_headers: extra.map(|s| s.to_string()),
        timeout_secs: 45,
        weight: 1,
        priority: 0,
        lb_strategy: "round_robin".to_string(),
        enabled: true,
        is_healthy: true,
        created_at: ts(),
        updated_at: ts(),
    }
}

fn h(name: &str, value: &str) -> (String, Vec<u8>) {
    (name.to_string(), value.as_bytes().to_vec())
}

fn get<'a>(hs: &'a [(String, Vec<u8>)], name: &str) -> Option<&'a [u8]> {
    hs.iter().find(|(n, _)| n == name).map(|(_, v)| v.as_slice())
}

#[test]
fn target_url_trims_base_slashes_and_appends_query() {
    assert_eq!(target_url("https://a.b///", "/v1/x", ""), "https://a.b/v1/x");
    assert_eq!(target_url("https://a.b", "/v1/x", "q=1&r=2"), "https://a.b/v1/x?q=1&r=2");
}

#[test]
fn header_syntax() {
    assert_eq!(header_name_canonical("X-Request-Id").as_deref(), Some("x-request-id"));
    assert_eq!(header_name_canonical("bad name"), None);
    assert_eq!(header_name_canonical(""), None);
    assert!(header_value_ok(b"a\tb c"));
    assert!(!header_value_ok(b"a\nb"));
    assert!(!header_value_ok(&[127]));
    assert!(header_value_ok(&[200]));
}

#[test]
fn hop_by_hop_and_client_authorization_are_dropped() {
    let incoming = vec![
        h("Connection", "keep-alive"),
        h("Host", "proxy.local"),
        h("Authorization", "Bearer client"),
        h("Content-Type", "application/json"),
        h("X-Trace", "1"),
        h("x-trace", "2"),
    ];
    let req = plan_forward(&upstream(None, None), "/v1/chat", "", &incoming).unwrap();
    assert_eq!(req.url, "https://api.example.com/v1/chat");
    assert_eq!(req.timeout_secs, 45);
    assert_eq!(req.headers.len(), 2);
    assert_eq!(get(&req.headers, "content-type"), Some(&b"application/json"[..]));
    assert_eq!(get(&req.headers, "x-trace"), Some(&b"2"[..]));
    assert_eq!(get(&req.headers, "authorization"), None);
}

#[test]
fn api_key_and_extra_headers_are_injected() {
    let incoming = vec![h("Authorization", "Bearer client"), h("X-Org", "client")];
    let up = upstream(Some("sk-1"), Some(r#"{"X-Org": "acme", "X-Num": 5, "bad name": "v"}"#));
    let req = plan_forward(&up, "/p", "a=b", &incoming).unwrap();
    assert_eq!(req.url, "https://api.example.com/p?a=b");
    assert_eq!(get(&req.headers, "authorization"), Some(&b"Bearer sk-1"[..]));
    assert_eq!(get(&req.headers, "x-org"), Some(&b"acme"[..]));
    assert_eq!(get(&req.headers, "x-num"), None);
    assert_eq!(req.headers.len(), 2);
}

#[test]
fn forwarded_names_stay_distinct_under_extra_headers() {
    let incoming = vec![h("X-Org", "client"), h("Accept", "*/*")];
    let up = upstream(Some("k"), Some(r#"{"X-Org": "acme", "x-org": "second", "Authorization": "other"}"#));
    let req = plan_forward(&up, "/p", "", &incoming).unwrap();
    assert_eq!(req.headers.len(), 3);
    for (i, (a, _)) in req.headers.iter().enumerate() {
        for (b, _) in req.headers.iter().skip(i + 1) {
            assert_ne!(a, b);
        }
    }
    assert_eq!(get(&req.headers, "x-org"), Some(&b"second"[..]));
    assert_eq!(get(&req.headers, "authorization"), Some(&b"other"[..]));
}

#[test]
fn malformed_extra_headers_are_ignored() {
    let up = upstream(None, Some("not json"));
    let req = plan_forward(&up, "/p", "", &vec![h("Accept", "*/*")]).unwrap();
    assert_eq!(req.headers, vec![h("accept", "*/*")]);
}

#[test]
fn invalid_api_key_is_an_internal_error() {
    let up = upstream(Some("bad\nkey"), None);
    match plan_forward(&up, "/p", "", &vec![]) {
        Err(AppError::Internal(m)) => assert_eq!(m, "upstream api_key contains invalid header characters"),
        _ => panic!("expected an internal error"),
    }
}

#[test]
fn negative_timeout_wraps_like_a_cast() {
    let mut up = upstream(None, None);
    up.timeout_secs = -1;
    let req = plan_forward(&up, "/p", "", &vec![]).unwrap();
    assert_eq!(req.timeout_secs, u64::MAX);
}

fn rule(inbound: &str, outbound: &str, match_type: &str, upstream_id: Option<i64>) -> route_rules::Model {
    route_rules::Model {
        id: 1,
        name: "r".to_string(),
        inbound_path: inbound.to_string(),
        outbound_path: outbound.to_string(),
        match_type: match_type.to_string(),
        upstream_id,
        priority: 0,
        extra_headers: None,
        extra_query: None,
        enabled: true,
        created_at: ts(),
        updated_at: ts(),
    }
}

#[test]
fn routing_falls_back_to_the_inbound_path() {
    let rules = vec![rule("/a", "/b", "exact", Some(4))];
    assert_eq!(plan_route(&rules, &"/a".to_string()), ("/b".to_string(), Some(4)));
    assert_eq!(plan_route(&rules, &"/c".to_string()), ("/c".to_string(), None));
}

#[test]
fn response_status_and_headers() {
    assert_eq!(response_status(200), 200);
    assert_eq!(response_status(999), 999);
    assert_eq!(response_status(42), 500);
    assert_eq!(response_status(1000), 500);
    let upstream_headers = vec![
        h("content-length", "10"),
        h("transfer-encoding", "chunked"),
        h("set-cookie", "a=1"),
        h("set-cookie", "b=2"),
        h("content-type", "text/plain"),
    ];
    let out = response_headers(&upstream_headers);
    assert_eq!(out, vec![h("set-cookie", "b=2"), h("content-type", "text/plain")]);
}

#[test]
fn routed_pin_goes_to_its_row_whatever_its_health() {
    let counter = AtomicUsize::new(0);
    let mut pinned = upstream(None, None);
    pinned.id = 5;
    pinned.is_healthy = false;
    let r = route_upstream(Some(5), Some(pinned), vec![], &counter).unwrap();
    assert_eq!(r.id, 5);
    let r = route_upstream(Some(6), None, vec![upstream(None, None)], &counter);
    assert!(matches!(r, Err(AppError::UpstreamNotFound { id: 6 })));
    let r = route_upstream(None, None, vec![upstream(None, None)], &counter).unwrap();
    assert_eq!(r.id, 1);
    assert_eq!(counter.load(Ordering::Relaxed), 1);
    assert!(matches!(route_upstream(None, None, vec![], &counter), Err(AppError::NoAvailableUpstream)));
}
