//! Application-level rules that sit between the HTTP edge and the domain: cookies, OAuth
//! helpers, browser-origin checks, workspace roles and tax-profile request handling.

pub mod account;
pub mod admin;
pub mod auth;
pub mod authorization;
pub mod chrome;
pub mod dashboard;
pub mod ingress;
pub mod organization;
pub mod session;
pub mod tax_profile;
pub mod vault;
