//! Configuration and connection provisioning for a newsletter service.
//!
//! The crate resolves a layered, environment-aware configuration, derives
//! database connection descriptors from it without leaking secret material,
//! and drives the provisioning of isolated, migrated test databases.

pub mod configuration;
pub mod descriptor;
pub mod environment;
pub mod fragment;
pub mod overrides;
pub mod provision;
pub mod secret;
pub mod text;
