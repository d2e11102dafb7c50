//! Product domain aggregates (independent of the identity stack and the UI).

pub mod tin;
pub mod tin_identity;
pub mod oauth_client;
pub mod orus;
pub mod tax_profile;
pub mod profile_laws;
pub mod profile_store;
pub mod queries;
pub mod desktop_session;
pub mod v1_sync;
