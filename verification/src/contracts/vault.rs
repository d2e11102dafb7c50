//! Vault (secret store) wire contracts. Secret values never appear in summaries.

use vstd::prelude::*;

verus! {

#[derive(Clone, PartialEq, Eq)]
pub struct SecretCreateRequest {
    /// Env-like key: `^[A-Z][A-Z0-9_]{1,63}$` (preferred).
    pub key: String,
    /// Legacy alias for `key` / human label.
    pub name: String,
    pub value: String,
    pub label: String,
    pub description: String,
    /// `user` (default) or `app` (platform features).
    pub scope: String,
}

/// Client-safe vault entry — **never** includes the secret value.
#[derive(Clone, Debug, PartialEq, Eq)]
pub struct SecretSummary {
    pub id: String,
    /// Env-like key for connectors (`STRIPE_SECRET_KEY`).
    pub key: String,
    /// Display label.
    pub label: String,
    /// Backward-compat: same as `key` or `label`.
    pub name: String,
    pub description: String,
    pub scope: String,
    pub created_at_ms: u64,
    pub updated_at_ms: u64,
    /// Always the masked placeholder for UI.
    pub masked_value: String,
}

#[derive(Clone, PartialEq, Eq)]
pub struct SecretRevealResponse {
    pub id: String,
    pub key: String,
    /// Plaintext — only from dedicated reveal endpoint after authz.
    pub value: String,
    /// UI should remask after this many seconds.
    pub reveal_ttl_seconds: u32,
}

} // verus!
