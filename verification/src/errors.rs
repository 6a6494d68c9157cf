//! The error type of the library.
use vstd::prelude::*;

use crate::text::{concat, owned};

verus! {

/// Errors reported by Refinery. Failures of the surrounding program
/// (I/O, prompts, YAML, network) carry the message of the failure.
#[derive(Debug)]
pub enum RefineryError {
    Generic(String),
    Config(String),
    Io(String),
    Prompt(String),
    FileExists(String),
    Yaml(String),
    Network(String),
    Toml(String),
}

/// The message shown for an error.
pub open spec fn error_message(e: RefineryError) -> Seq<char> {
    match e {
        RefineryError::Generic(m) => m@,
        RefineryError::Config(m) => m@,
        RefineryError::Io(m) => "Failed to perform IO operation: "@ + m@,
        RefineryError::Prompt(m) => "Failed to process interactive prompt: "@ + m@,
        RefineryError::FileExists(m) => "Workflow file '"@ + m@ + "' already exists."@,
        RefineryError::Yaml(m) => "Failed to process YAML configuration: "@ + m@,
        RefineryError::Network(m) => "Network operation failed: "@ + m@,
        RefineryError::Toml(m) => "Failed to parse TOML: "@ + m@,
    }
}

impl RefineryError {
    /// The human-readable message of this error.
    pub fn message(&self) -> (r: String)
        ensures
            r@ == error_message(*self),
    {
        match self {
            RefineryError::Generic(m) => owned(m.as_str()),
            RefineryError::Config(m) => owned(m.as_str()),
            RefineryError::Io(m) => concat("Failed to perform IO operation: ", m.as_str()),
            RefineryError::Prompt(m) => concat(
                "Failed to process interactive prompt: ",
                m.as_str(),
            ),
            RefineryError::FileExists(m) => {
                let a = concat("Workflow file '", m.as_str());
                concat(a.as_str(), "' already exists.")
            },
            RefineryError::Yaml(m) => concat(
                "Failed to process YAML configuration: ",
                m.as_str(),
            ),
            RefineryError::Network(m) => concat("Network operation failed: ", m.as_str()),
            RefineryError::Toml(m) => concat("Failed to parse TOML: ", m.as_str()),
        }
    }
}

} // verus!
