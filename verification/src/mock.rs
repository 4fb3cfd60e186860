use vstd::prelude::*;

use crate::db::entities::{api_tokens, route_rules, upstreams};
use crate::service::token::{generate_token, hash_token, is_raw_token, token_hash_of};
use crate::timestamp::{now, Timestamp};

verus! {

/// A seed upstream with the given settings, stamped with `t`.
pub open spec fn seed_upstream(
    name: Seq<char>,
    base_url: Seq<char>,
    api_key: Option<Seq<char>>,
    timeout_secs: i32,
    weight: i32,
    priority: i32,
    lb_strategy: Seq<char>,
    is_healthy: bool,
    t: Timestamp,
    m: upstreams::NewModel,
) -> bool {
    &&& m.name@ == name
    &&& m.base_url@ == base_url
    &&& match (m.api_key, api_key) {
        (Some(k), Some(e)) => k@ == e,
        (None, None) => true,
        _ => false,
    }
    &&& m.extra_headers is None
    &&& m.timeout_secs == timeout_secs
    &&& m.weight == weight
    &&& m.priority == priority
    &&& m.lb_strategy@ == lb_strategy
    &&& m.enabled
    &&& m.is_healthy == is_healthy
    &&& m.created_at == t
    &&& m.updated_at == t
}

/// The development upstreams, stamped with `t`.
pub fn mock_upstreams_at(t: Timestamp) -> (r: Vec<upstreams::NewModel>)
    ensures
        r@.len() == 3,
        seed_upstream("OpenAI API"@, "https://api.openai.com"@, Some("sk-mock-openai-key"@), 30, 10, 1, "round_robin"@, true, t, r@[0]),
        seed_upstream("Anthropic API"@, "https://api.anthropic.com"@, Some("sk-ant-mock-key"@), 60, 8, 2, "weighted"@, true, t, r@[1]),
        seed_upstream("Local LLM"@, "http://localhost:11434"@, None, 120, 5, 3, "failover"@, false, t, r@[2]),
{
    let mut r: Vec<upstreams::NewModel> = Vec::new();
    r.push(upstreams::NewModel {
        name: "OpenAI API".to_string(),
        base_url: "https://api.openai.com".to_string(),
        api_key: Some("sk-mock-openai-key".to_string()),
        extra_headers: None,
        timeout_secs: 30,
        weight: 10,
        priority: 1,
        lb_strategy: "round_robin".to_string(),
        enabled: true,
        is_healthy: true,
        created_at: t,
        updated_at: t,
    });
    r.push(upstreams::NewModel {
        name: "Anthropic API".to_string(),
        base_url: "https://api.anthropic.com".to_string(),
        api_key: Some("sk-ant-mock-key".to_string()),
        extra_headers: None,
        timeout_secs: 60,
        weight: 8,
        priority: 2,
        lb_strategy: "weighted".to_string(),
        enabled: true,
        is_healthy: true,
        created_at: t,
        updated_at: t,
    });
    r.push(upstreams::NewModel {
        name: "Local LLM".to_string(),
        base_url: "http://localhost:11434".to_string(),
        api_key: None,
        extra_headers: None,
        timeout_secs: 120,
        weight: 5,
        priority: 3,
        lb_strategy: "failover".to_string(),
        enabled: true,
        is_healthy: false,
        created_at: t,
        updated_at: t,
    });
    r
}

/// The development upstreams, stamped with the current time.
pub fn mock_upstreams() -> (r: Vec<upstreams::NewModel>)
    ensures
        r@.len() == 3,
        exists|t: Timestamp| {
            &&& seed_upstream("OpenAI API"@, "https://api.openai.com"@, Some("sk-mock-openai-key"@), 30, 10, 1, "round_robin"@, true, t, r@[0])
            &&& seed_upstream("Anthropic API"@, "https://api.anthropic.com"@, Some("sk-ant-mock-key"@), 60, 8, 2, "weighted"@, true, t, r@[1])
            &&& #[trigger] seed_upstream("Local LLM"@, "http://localhost:11434"@, None, 120, 5, 3, "failover"@, false, t, r@[2])
        },
{
    mock_upstreams_at(now())
}

/// A seed route rule with the given settings, stamped with `t`.
pub open spec fn seed_route(
    name: Seq<char>,
    inbound: Seq<char>,
    outbound: Seq<char>,
    match_type: Seq<char>,
    upstream_id: Option<i64>,
    priority: i32,
    t: Timestamp,
    m: route_rules::NewModel,
) -> bool {
    &&& m.name@ == name
    &&& m.inbound_path@ == inbound
    &&& m.outbound_path@ == outbound
    &&& m.match_type@ == match_type
    &&& m.upstream_id == upstream_id
    &&& m.priority == priority
    &&& m.extra_headers is None
    &&& m.extra_query is None
    &&& m.enabled
    &&& m.created_at == t
    &&& m.updated_at == t
}

fn seed_rule(
    name: &str,
    inbound: &str,
    outbound: &str,
    match_type: &str,
    upstream_id: Option<i64>,
    priority: i32,
    t: Timestamp,
) -> (m: route_rules::NewModel)
    ensures
        seed_route(name@, inbound@, outbound@, match_type@, upstream_id, priority, t, m),
{
    route_rules::NewModel {
        name: name.to_string(),
        inbound_path: inbound.to_string(),
        outbound_path: outbound.to_string(),
        match_type: match_type.to_string(),
        upstream_id,
        priority,
        extra_headers: None,
        extra_query: None,
        enabled: true,
        created_at: t,
        updated_at: t,
    }
}

/// The development route rules, stamped with `t`.
pub fn mock_routes_at(t: Timestamp) -> (r: Vec<route_rules::NewModel>)
    ensures
        r@.len() == 3,
        seed_route("OpenAI Chat Completion"@, "/v1/chat/completions"@, "/v1/chat/completions"@, "exact"@, Some(1), 10, t, r@[0]),
        seed_route("Anthropic Messages"@, "/v1/messages"@, "/v1/messages"@, "exact"@, Some(2), 10, t, r@[1]),
        seed_route("Catch All API"@, "/api/"@, "/api/"@, "prefix"@, None, 1, t, r@[2]),
{
    let mut r: Vec<route_rules::NewModel> = Vec::new();
    r.push(seed_rule("OpenAI Chat Completion", "/v1/chat/completions", "/v1/chat/completions", "exact", Some(1), 10, t));
    r.push(seed_rule("Anthropic Messages", "/v1/messages", "/v1/messages", "exact", Some(2), 10, t));
    r.push(seed_rule("Catch All API", "/api/", "/api/", "prefix", None, 1, t));
    r
}

/// The development route rules, stamped with the current time.
pub fn mock_routes() -> (r: Vec<route_rules::NewModel>)
    ensures
        r@.len() == 3,
        exists|t: Timestamp| {
            &&& seed_route("OpenAI Chat Completion"@, "/v1/chat/completions"@, "/v1/chat/completions"@, "exact"@, Some(1), 10, t, r@[0])
            &&& seed_route("Anthropic Messages"@, "/v1/messages"@, "/v1/messages"@, "exact"@, Some(2), 10, t, r@[1])
            &&& #[trigger] seed_route("Catch All API"@, "/api/"@, "/api/"@, "prefix"@, None, 1, t, r@[2])
        },
{
    mock_routes_at(now())
}

/// Seconds in thirty days.
pub open spec fn thirty_days() -> int {
    2_592_000
}

/// A seed token record with a fresh raw token, stamped with `t`.
pub open spec fn seed_token(
    label: Seq<char>,
    expires_at: Option<Timestamp>,
    rpm_limit: i32,
    tpm_limit: i32,
    t: Timestamp,
    entry: (api_tokens::NewModel, String),
) -> bool {
    &&& is_raw_token(entry.1@)
    &&& entry.0.token_hash@ == token_hash_of(entry.1@)
    &&& entry.0.label@ == label
    &&& entry.0.expires_at == expires_at
    &&& entry.0.enabled
    &&& entry.0.rpm_limit == Some(rpm_limit)
    &&& entry.0.tpm_limit == Some(tpm_limit)
    &&& entry.0.created_at == t
    &&& entry.0.updated_at == t
}

fn seed_token_entry(
    label: &str,
    expires_at: Option<Timestamp>,
    rpm_limit: i32,
    tpm_limit: i32,
    t: Timestamp,
) -> (r: (api_tokens::NewModel, String))
    ensures
        seed_token(label@, expires_at, rpm_limit, tpm_limit, t, r),
{
    let raw_token = generate_token();
    let token_hash = hash_token(raw_token.as_str());
    let model = api_tokens::NewModel {
        token_hash,
        label: label.to_string(),
        expires_at,
        enabled: true,
        rpm_limit: Some(rpm_limit),
        tpm_limit: Some(tpm_limit),
        created_at: t,
        updated_at: t,
    };
    (model, raw_token)
}

/// The development tokens with their raw tokens, stamped with `t`; the
/// second one expires thirty days after `t`.
pub fn mock_tokens_at(t: Timestamp) -> (r: Vec<(api_tokens::NewModel, String)>)
    requires
        -9_000_000_000_000 < t.secs < 9_000_000_000_000,
    ensures
        r@.len() == 3,
        seed_token("Production Bot"@, None, 1000, 100000, t, r@[0]),
        seed_token("Development Test"@, Some(Timestamp { secs: (t.secs + thirty_days()) as i64, nanos: t.nanos }), 100, 10000, t, r@[1]),
        seed_token("Demo Account"@, None, 50, 5000, t, r@[2]),
{
    let expiry = Timestamp { secs: t.secs + 2_592_000, nanos: t.nanos };
    let mut r: Vec<(api_tokens::NewModel, String)> = Vec::new();
    r.push(seed_token_entry("Production Bot", None, 1000, 100000, t));
    r.push(seed_token_entry("Development Test", Some(expiry), 100, 10000, t));
    r.push(seed_token_entry("Demo Account", None, 50, 5000, t));
    r
}

/// The development tokens with their raw tokens, stamped with the current time.
pub fn mock_tokens() -> (r: Vec<(api_tokens::NewModel, String)>)
    ensures
        r@.len() == 3,
        exists|t: Timestamp| {
            &&& seed_token("Production Bot"@, None, 1000, 100000, t, r@[0])
            &&& seed_token("Development Test"@, Some(Timestamp { secs: (t.secs + thirty_days()) as i64, nanos: t.nanos }), 100, 10000, t, r@[1])
            &&& #[trigger] seed_token("Demo Account"@, None, 50, 5000, t, r@[2])
        },
{
    mock_tokens_at(now())
}

} // verus!
