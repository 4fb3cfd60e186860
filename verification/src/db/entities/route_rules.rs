use vstd::prelude::*;
use crate::timestamp::Timestamp;
use crate::text::copy_opt_string;

verus! {

/// Path rewrite rule: maps an inbound path to an outbound path.
#[derive(Clone, Debug)]
pub struct Model {
    pub id: i64,
    /// Human-readable rule name.
    pub name: String,
    /// Inbound path pattern.
    pub inbound_path: String,
    /// Outbound path to forward to the upstream.
    pub outbound_path: String,
    /// Matching strategy: `exact`, `prefix`, or `regex`.
    pub match_type: String,
    /// Pin to a specific upstream (`None` = use the load balancer).
    pub upstream_id: Option<i64>,
    /// Higher priority = evaluated first.
    pub priority: i32,
    /// Additional HTTP headers to inject (JSON object).
    pub extra_headers: Option<String>,
    /// Additional query parameters to inject (JSON object).
    pub extra_query: Option<String>,
    /// Whether this rule is active.
    pub enabled: bool,
    pub created_at: Timestamp,
    pub updated_at: Timestamp,
}

/// A route rule before the store assigns its id.
#[derive(Clone, Debug)]
pub struct NewModel {
    pub name: String,
    pub inbound_path: String,
    pub outbound_path: String,
    pub match_type: String,
    pub upstream_id: Option<i64>,
    pub priority: i32,
    pub extra_headers: Option<String>,
    pub extra_query: Option<String>,
    pub enabled: bool,
    pub created_at: Timestamp,
    pub updated_at: Timestamp,
}

impl Model {
    /// A field-by-field copy.
    pub fn duplicate(&self) -> (r: Model)
        ensures
            r == *self,
    {
        Model {
            id: self.id,
            name: self.name.clone(),
            inbound_path: self.inbound_path.clone(),
            outbound_path: self.outbound_path.clone(),
            match_type: self.match_type.clone(),
            upstream_id: self.upstream_id,
            priority: self.priority,
            extra_headers: copy_opt_string(&self.extra_headers),
            extra_query: copy_opt_string(&self.extra_query),
            enabled: self.enabled,
            created_at: self.created_at,
            updated_at: self.updated_at,
        }
    }
}

} // verus!
