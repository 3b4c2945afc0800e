//! Core domain logic for a devcontainer lifecycle manager: configuration
//! resolution, lifecycle planning, lifecycle execution against a pluggable
//! container-engine provider, and the pure decision logic of the reference
//! engine-CLI backend.

pub mod config;
pub mod docker;
pub mod errors;
pub mod jsonio;
pub mod lifecycle;
pub mod provider;
pub mod telemetry;
pub mod strutil;

