//! Refinery-RS: configuration schema, target resolution and workflow
//! generation for shipping Rust artifacts to many platforms.
pub mod errors;
pub mod models;
pub mod schema;
pub mod text;
pub mod workflow;
pub mod writer;
pub mod release;
pub mod builder;
pub mod commands;
pub mod ui;
pub mod wizard;
pub mod project;
pub mod packaging;
pub mod setup;
