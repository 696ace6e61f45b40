//! Error kinds of the pipeline and how each propagates.
//!
//! `BuildError` is recovered locally by the repair loop until its retry
//! ceiling is hit, then becomes fatal. A transport failure while validating a
//! single external URL is non-fatal per item. Every other kind aborts the run.

use vstd::prelude::*;

verus! {

/// What went wrong, by kind. Fatal errors report their kind and stage before
/// the run terminates.
#[derive(Clone, Copy, Debug, PartialEq, Eq, Structural)]
pub enum AgentError {
    /// Network failure or timeout.
    TransportError,
    /// The generation collaborator failed its call and its one retry.
    GenerationError,
    /// A structured response did not match the expected schema.
    DecodeError,
    /// The build toolchain reported failure; recoverable up to the ceiling.
    BuildError,
    /// Spawning or terminating the server process failed.
    ProcessError,
    /// The operator declined the safety confirmation.
    OperatorAbort,
}

impl AgentError {
    /// The name of the kind, for fatal-error reporting.
    pub fn kind_label(&self) -> (r: &'static str)
        ensures
            (*self == AgentError::TransportError) ==> r@ == "TransportError"@,
            (*self == AgentError::GenerationError) ==> r@ == "GenerationError"@,
            (*self == AgentError::DecodeError) ==> r@ == "DecodeError"@,
            (*self == AgentError::BuildError) ==> r@ == "BuildError"@,
            (*self == AgentError::ProcessError) ==> r@ == "ProcessError"@,
            (*self == AgentError::OperatorAbort) ==> r@ == "OperatorAbort"@,
    {
        match self {
            AgentError::TransportError => "TransportError",
            AgentError::GenerationError => "GenerationError",
            AgentError::DecodeError => "DecodeError",
            AgentError::BuildError => "BuildError",
            AgentError::ProcessError => "ProcessError",
            AgentError::OperatorAbort => "OperatorAbort",
        }
    }
}

} // verus!
