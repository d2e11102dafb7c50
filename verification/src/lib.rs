//! Buwiz cloud: tax-profile ownership, the authentication product's rules (sessions,
//! cookies, OAuth flows, keys and settings, error reporting), the workspace board and
//! settings, desktop OAuth policy, and the shared wire contracts of the fullstack app.

pub mod text;
pub mod domain;
pub mod error;
pub mod contracts;
pub mod crypto;
pub mod application;
pub mod auth_product;
pub mod desktop_oauth;
pub mod dev_auth;
pub mod migrate;
