//! The failure taxonomy of the pipeline.
//!
//! Every component returns a `Result` carrying one of these variants; the
//! orchestrator performs no recovery, so the first error anywhere aborts the
//! remaining steps and is surfaced verbatim to the caller.

use vstd::prelude::*;

verus! {

/// One failure of a pipeline step, with a human-readable detail string.
#[derive(Debug, Clone, PartialEq, Eq)]
pub enum BuildError {
    /// Malformed or contradictory options, such as only one key of a
    /// required ssh key pair.
    Configuration(String),
    /// The target installation is already present and overwriting was not
    /// requested.
    AlreadyExists(String),
    /// A required file was not found, either a configured path or a
    /// relocation pattern that matched nothing.
    NotFound(String),
    /// A relocation pattern matched more than one file.
    Ambiguous(String),
    /// A disk read, write or move failed.
    Io(String),
    /// A download failed.
    Network(String),
    /// An archive could not be extracted.
    Extraction(String),
    /// The external interpreter reported a failure.
    ScriptExecution(String),
}

impl BuildError {
    /// The detail string carried by the error, whatever its variant.
    pub fn message(&self) -> (r: &String)
        ensures
            r == self.message_spec(),
    {
        match self {
            BuildError::Configuration(m) => m,
            BuildError::AlreadyExists(m) => m,
            BuildError::NotFound(m) => m,
            BuildError::Ambiguous(m) => m,
            BuildError::Io(m) => m,
            BuildError::Network(m) => m,
            BuildError::Extraction(m) => m,
            BuildError::ScriptExecution(m) => m,
        }
    }

    /// The detail string of the error.
    pub open spec fn message_spec(&self) -> String {
        match self {
            BuildError::Configuration(m) => *m,
            BuildError::AlreadyExists(m) => *m,
            BuildError::NotFound(m) => *m,
            BuildError::Ambiguous(m) => *m,
            BuildError::Io(m) => *m,
            BuildError::Network(m) => *m,
            BuildError::Extraction(m) => *m,
            BuildError::ScriptExecution(m) => *m,
        }
    }
}

} // verus!
