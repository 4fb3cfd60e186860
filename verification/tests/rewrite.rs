use api_transit::db::entities::route_rules;
use api_transit::proxy::rewrite::{apply_rule, rewrite};
use api_transit::timestamp::Timestamp;

fn utc_now() -> Timestamp {
    let n = chrono::Utc::now();
    Timestamp { secs: n.timestamp(), nanos: n.timestamp_subsec_nanos() }
}

fn make_rule(inbound: &str, outbound: &str, match_type: &str, priority: i32) -> route_rules::Model {
    route_rules::Model {
        id: 1,
        name: "test".to_string(),
        inbound_path: inbound.to_string(),
        outbound_path: outbound.to_string(),
        match_type: match_type.to_string(),
        upstream_id: None,
        priority,
        extra_headers: None,
        extra_query: None,
        enabled: true,
        created_at: utc_now(),
        updated_at: utc_now(),
    }
}

#[test]
fn test_exact_match() {
    let rules = vec![make_rule("/api/v1/infer", "/v1/inference", "exact", 10)];
    let result = rewrite(&rules, "/api/v1/infer").unwrap();
    assert_eq!(result.path, "/v1/inference");
}

#[test]
fn test_exact_no_match() {
    let rules = vec![make_rule("/api/v1/infer", "/v1/inference", "exact", 10)];
    assert!(rewrite(&rules, "/api/v1/other").is_none());
}

#[test]
fn test_prefix_match() {
    let rules = vec![make_rule("/api/", "/v1/", "prefix", 10)];
    let result = rewrite(&rules, "/api/chat/completions").unwrap();
    assert_eq!(result.path, "/v1/chat/completions");
}

#[test]
fn test_regex_match() {
    let rules = vec![make_rule(r"/api/models/(\w+)/chat", "/v1/chat/completions", "regex", 10)];
    // `\w` does not cover '-', so the pattern cannot match "gpt-4": the
    // regex crate reports no match and the rule does not apply.
    assert!(rewrite(&rules, "/api/models/gpt-4/chat").is_none());
    let result = rewrite(&rules, "/api/models/gpt4/chat").unwrap();
    assert_eq!(result.path, "/v1/chat/completions");
}

#[test]
fn prefix_joins_with_a_single_slash() {
    let rules = vec![make_rule("/api", "/v1/", "prefix", 10)];
    let result = rewrite(&rules, "/api/chat").unwrap();
    assert_eq!(result.path, "/v1/chat");
}

#[test]
fn prefix_without_slashes_concatenates() {
    let rules = vec![make_rule("/api/", "/v1", "prefix", 10)];
    let result = rewrite(&rules, "/api/chat").unwrap();
    assert_eq!(result.path, "/v1chat");
}

#[test]
fn prefix_keeps_double_slash_of_the_request() {
    let rules = vec![make_rule("/api", "/v1/", "prefix", 10)];
    let result = rewrite(&rules, "/api//chat").unwrap();
    assert_eq!(result.path, "/v1//chat");
}

#[test]
fn prefix_does_not_match_other_paths() {
    let rules = vec![make_rule("/api/", "/v1/", "prefix", 10)];
    assert!(rewrite(&rules, "/other/api/").is_none());
}

#[test]
fn regex_replaces_first_match_with_groups() {
    let rules = vec![make_rule(r"/models/(\w+)/chat", "/v1/$1", "regex", 10)];
    let result = rewrite(&rules, "/api/models/gpt4/chat/x").unwrap();
    assert_eq!(result.path, "/api/v1/gpt4/x");
}

#[test]
fn invalid_regex_never_applies() {
    let rule = make_rule("/api/(", "/v1", "regex", 10);
    assert!(apply_rule(&rule, "/api/(").is_none());
}

#[test]
fn unknown_match_type_never_applies() {
    let rule = make_rule("/api", "/v1", "glob", 10);
    assert!(apply_rule(&rule, "/api").is_none());
}

#[test]
fn first_matching_rule_wins() {
    let mut first = make_rule("/x", "/never", "exact", 20);
    first.upstream_id = Some(7);
    let mut second = make_rule("/api/", "/second/", "prefix", 10);
    second.upstream_id = Some(2);
    let third = make_rule("/api/a", "/third", "exact", 5);
    let rules = vec![first, second, third];
    let result = rewrite(&rules, "/api/a").unwrap();
    assert_eq!(result.path, "/second/a");
    assert_eq!(result.upstream_id, Some(2));
}
