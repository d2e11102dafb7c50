//! Shared wire/DTO contracts of the fullstack app, split by domain.

pub mod admin;
pub mod auth;
pub mod dashboard;
pub mod organization;
pub mod profile;
pub mod resources;
pub mod tax_profile;
pub mod tax_profile_laws;
pub mod vault;
