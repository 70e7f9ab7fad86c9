//! Core identifiers and status variants of the pipeline control plane.

use vstd::prelude::*;

verus! {

/// Identifier of one pipeline, unique across the whole control plane.
///
/// The descriptor store keys records by `(tenant, pipeline)`; the automaton
/// carries the identifier into every store call and error it produces.
#[derive(Clone, Copy, Debug, PartialEq, Eq, Structural)]
pub struct PipelineId(pub u128);

/// Identifier of the tenant that owns a pipeline.
#[derive(Clone, Copy, Debug, PartialEq, Eq, Structural)]
pub struct TenantId(pub u128);

/// Status of the compilation pipeline for one pipeline's program.
///
/// Only `Success` permits deployment; the three error variants carry the
/// compiler's message and immediately fail a deployment attempt.
#[derive(Clone, Debug, PartialEq)]
pub enum ProgramStatus {
    Pending,
    CompilingSql,
    SqlCompiled,
    CompilingRust,
    Success,
    SqlError(Vec<String>),
    RustError(String),
    SystemError(String),
}

impl ProgramStatus {
    /// Whether this status is one of the three compilation-failure variants.
    pub open spec fn spec_is_compilation_error(&self) -> bool {
        self is SqlError || self is RustError || self is SystemError
    }

    /// Whether this is `Success`, the only status that permits deployment.
    pub open spec fn spec_is_success(&self) -> bool {
        self is Success
    }

    /// Executable twin of [`Self::spec_is_compilation_error`].
    #[verifier::when_used_as_spec(spec_is_compilation_error)]
    pub fn is_compilation_error(&self) -> (r: bool)
        ensures
            r == self.spec_is_compilation_error(),
    {
        matches!(
            self,
            ProgramStatus::SqlError(_) | ProgramStatus::RustError(_) | ProgramStatus::SystemError(_)
        )
    }

    /// Executable twin of [`Self::spec_is_success`].
    #[verifier::when_used_as_spec(spec_is_success)]
    pub fn is_success(&self) -> (r: bool)
        ensures
            r == self.spec_is_success(),
    {
        matches!(self, ProgramStatus::Success)
    }
}

/// Observed deployment status of one pipeline: the automaton's state variable.
#[derive(Clone, Copy, Debug, PartialEq, Eq, Structural)]
pub enum PipelineStatus {
    Shutdown,
    Provisioning,
    Initializing,
    Paused,
    Running,
    Unavailable,
    ShuttingDown,
    Failed,
}

/// Deployment status that the user has asked for: the restricted subset of
/// [`PipelineStatus`] that user intent may name.
#[derive(Clone, Copy, Debug, PartialEq, Eq, Structural)]
pub enum PipelineDesiredStatus {
    Shutdown,
    Paused,
    Running,
}

} // verus!
