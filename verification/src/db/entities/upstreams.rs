use vstd::prelude::*;
use crate::timestamp::Timestamp;
use crate::text::copy_opt_string;

verus! {

/// Upstream service provider configuration, as stored.
#[derive(Clone, Debug)]
pub struct Model {
    pub id: i64,
    /// Human-readable unique name.
    pub name: String,
    /// Base URL of the upstream (e.g. `https://api.openai.com`).
    pub base_url: String,
    /// API key injected as `Authorization: Bearer` when forwarding.
    pub api_key: Option<String>,
    /// Additional HTTP headers to inject (JSON object).
    pub extra_headers: Option<String>,
    /// Per-request timeout in seconds.
    pub timeout_secs: i32,
    /// Weight for weighted load balancing.
    pub weight: i32,
    /// Priority for failover (lower = tried first).
    pub priority: i32,
    /// Load balancing strategy: `round_robin`, `weighted`, `failover`.
    pub lb_strategy: String,
    /// Whether the upstream is administratively enabled.
    pub enabled: bool,
    /// Whether the upstream passed the last health check.
    pub is_healthy: bool,
    pub created_at: Timestamp,
    pub updated_at: Timestamp,
}

/// An upstream before the store assigns its id.
#[derive(Clone, Debug)]
pub struct NewModel {
    pub name: String,
    pub base_url: String,
    pub api_key: Option<String>,
    pub extra_headers: Option<String>,
    pub timeout_secs: i32,
    pub weight: i32,
    pub priority: i32,
    pub lb_strategy: String,
    pub enabled: bool,
    pub is_healthy: bool,
    pub created_at: Timestamp,
    pub updated_at: Timestamp,
}

impl Model {
    /// A field-by-field copy.
    pub fn duplicate(&self) -> (r: Model)
        ensures
            r == *self,
    {
        Model {
            id: self.id,
            name: self.name.clone(),
            base_url: self.base_url.clone(),
            api_key: copy_opt_string(&self.api_key),
            extra_headers: copy_opt_string(&self.extra_headers),
            timeout_secs: self.timeout_secs,
            weight: self.weight,
            priority: self.priority,
            lb_strategy: self.lb_strategy.clone(),
            enabled: self.enabled,
            is_healthy: self.is_healthy,
            created_at: self.created_at,
            updated_at: self.updated_at,
        }
    }
}

} // verus!
