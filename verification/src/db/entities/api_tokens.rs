use vstd::prelude::*;
use crate::timestamp::Timestamp;

verus! {

/// API token issued to downstream clients, as stored.
#[derive(Clone, Debug)]
pub struct Model {
    pub id: i64,
    /// SHA-256 hash of the raw token, lowercase hex (the raw token is never stored).
    pub token_hash: String,
    /// Human-readable label.
    pub label: String,
    /// Optional expiry; `None` means the token never expires.
    pub expires_at: Option<Timestamp>,
    /// Whether the token is active.
    pub enabled: bool,
    /// Max requests per minute (`None` = unlimited).
    pub rpm_limit: Option<i32>,
    /// Max tokens per minute (`None` = unlimited).
    pub tpm_limit: Option<i32>,
    pub created_at: Timestamp,
    pub updated_at: Timestamp,
}

/// A token record before the store assigns its id.
#[derive(Clone, Debug)]
pub struct NewModel {
    pub token_hash: String,
    pub label: String,
    pub expires_at: Option<Timestamp>,
    pub enabled: bool,
    pub rpm_limit: Option<i32>,
    pub tpm_limit: Option<i32>,
    pub created_at: Timestamp,
    pub updated_at: Timestamp,
}

impl Model {
    /// A field-by-field copy.
    pub fn duplicate(&self) -> (r: Model)
        ensures
            r == *self,
    {
        Model {
            id: self.id,
            token_hash: self.token_hash.clone(),
            label: self.label.clone(),
            expires_at: self.expires_at,
            enabled: self.enabled,
            rpm_limit: self.rpm_limit,
            tpm_limit: self.tpm_limit,
            created_at: self.created_at,
            updated_at: self.updated_at,
        }
    }
}

} // verus!
