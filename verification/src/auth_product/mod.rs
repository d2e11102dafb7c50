//! The authentication product around the identity stack: session views handed to
//! browsers, passkey relying-party settings, flow bindings and the verified-token cache.

pub mod config;
pub mod dev;
pub mod errors;
pub mod flows;
pub mod infra;
pub mod key_settings;
pub mod providers;
pub mod token_cache;
