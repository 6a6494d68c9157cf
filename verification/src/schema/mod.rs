//! The `refinery.toml` configuration schema.
pub mod artifacts;
pub mod types;
pub mod targets;
pub mod config;
pub mod document;
pub mod metadata;
pub mod refinery;
