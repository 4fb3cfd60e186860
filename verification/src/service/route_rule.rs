use vstd::prelude::*;

use crate::db::entities::route_rules::{Model, NewModel};
use crate::error::AppError;
use crate::service::value_or;
use crate::timestamp::{now, Timestamp};

verus! {

/// DTO for creating or updating a route rule.
#[derive(Clone, Debug)]
pub struct UpsertRouteRuleDto {
    pub name: String,
    pub inbound_path: String,
    pub outbound_path: String,
    pub match_type: Option<String>,
    pub upstream_id: Option<i64>,
    pub priority: Option<i32>,
    pub extra_headers: Option<String>,
    pub extra_query: Option<String>,
    pub enabled: Option<bool>,
}

/// The match type named by the DTO, `exact` when it names none.
pub open spec fn match_type_or_default(s: Option<String>) -> Seq<char> {
    match s {
        Some(v) => v@,
        None => "exact"@,
    }
}

/// The rule looked up by `id`: the stored one, or `RouteRuleNotFound`.
pub fn get(found: Option<Model>, id: i64) -> (r: Result<Model, AppError>)
    ensures
        found matches Some(m) ==> r == Ok::<Model, AppError>(m),
        found is None ==> r == Err::<Model, AppError>(AppError::RouteRuleNotFound { id }),
{
    match found {
        Some(m) => Ok(m),
        None => Err(AppError::RouteRuleNotFound { id }),
    }
}

/// The new rule record for `dto` at time `t`: match type `exact`, priority
/// 0 and enabled unless the DTO says otherwise.
pub fn new_rule(dto: UpsertRouteRuleDto, t: Timestamp) -> (m: NewModel)
    ensures
        m.name == dto.name,
        m.inbound_path == dto.inbound_path,
        m.outbound_path == dto.outbound_path,
        m.match_type@ == match_type_or_default(dto.match_type),
        m.upstream_id == dto.upstream_id,
        m.priority == value_or(dto.priority, 0),
        m.extra_headers == dto.extra_headers,
        m.extra_query == dto.extra_query,
        m.enabled == value_or(dto.enabled, true),
        m.created_at == t,
        m.updated_at == t,
{
    let match_type = match dto.match_type {
        Some(v) => v,
        None => "exact".to_string(),
    };
    NewModel {
        name: dto.name,
        inbound_path: dto.inbound_path,
        outbound_path: dto.outbound_path,
        match_type,
        upstream_id: dto.upstream_id,
        priority: match dto.priority { Some(v) => v, None => 0 },
        extra_headers: dto.extra_headers,
        extra_query: dto.extra_query,
        enabled: match dto.enabled { Some(v) => v, None => true },
        created_at: t,
        updated_at: t,
    }
}

/// Create a new route rule record, stamped with the current time.
pub fn create(dto: UpsertRouteRuleDto) -> (m: NewModel)
    ensures
        m.name == dto.name,
        m.inbound_path == dto.inbound_path,
        m.outbound_path == dto.outbound_path,
        m.match_type@ == match_type_or_default(dto.match_type),
        m.upstream_id == dto.upstream_id,
        m.priority == value_or(dto.priority, 0),
        m.extra_headers == dto.extra_headers,
        m.extra_query == dto.extra_query,
        m.enabled == value_or(dto.enabled, true),
        m.created_at == m.updated_at,
{
    new_rule(dto, now())
}

/// `existing` after applying `dto` at time `t`: every field of the DTO
/// replaces the stored one (absent match type and priority fall back to
/// `exact` and 0), `enabled` changes only when given; id and creation time
/// are kept.
pub fn apply_rule_update(existing: Model, dto: UpsertRouteRuleDto, t: Timestamp) -> (m: Model)
    ensures
        m.id == existing.id,
        m.name == dto.name,
        m.inbound_path == dto.inbound_path,
        m.outbound_path == dto.outbound_path,
        m.match_type@ == match_type_or_default(dto.match_type),
        m.upstream_id == dto.upstream_id,
        m.priority == value_or(dto.priority, 0),
        m.extra_headers == dto.extra_headers,
        m.extra_query == dto.extra_query,
        m.enabled == value_or(dto.enabled, existing.enabled),
        m.created_at == existing.created_at,
        m.updated_at == t,
{
    let match_type = match dto.match_type {
        Some(v) => v,
        None => "exact".to_string(),
    };
    Model {
        id: existing.id,
        name: dto.name,
        inbound_path: dto.inbound_path,
        outbound_path: dto.outbound_path,
        match_type,
        upstream_id: dto.upstream_id,
        priority: match dto.priority { Some(v) => v, None => 0 },
        extra_headers: dto.extra_headers,
        extra_query: dto.extra_query,
        enabled: match dto.enabled { Some(v) => v, None => existing.enabled },
        created_at: existing.created_at,
        updated_at: t,
    }
}

/// Update an existing route rule, stamped with the current time.
pub fn update(existing: Model, dto: UpsertRouteRuleDto) -> (m: Model)
    ensures
        m.id == existing.id,
        m.name == dto.name,
        m.inbound_path == dto.inbound_path,
        m.outbound_path == dto.outbound_path,
        m.match_type@ == match_type_or_default(dto.match_type),
        m.upstream_id == dto.upstream_id,
        m.priority == value_or(dto.priority, 0),
        m.extra_headers == dto.extra_headers,
        m.extra_query == dto.extra_query,
        m.enabled == value_or(dto.enabled, existing.enabled),
        m.created_at == existing.created_at,
{
    apply_rule_update(existing, dto, now())
}

} // verus!
