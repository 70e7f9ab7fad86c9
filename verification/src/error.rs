//! Error values produced by the descriptor store and by the automaton.

use vstd::prelude::*;
use crate::types::PipelineId;
use crate::Version;

verus! {

/// Errors returned by the descriptor store.
///
/// Only the first two variants carry meaning for the automaton: an unknown
/// pipeline ends the automaton quietly (the pipeline was deleted), and a
/// stale version guard is swallowed on the `Shutdown` to `Provisioning`
/// boundary and fatal everywhere else. Any other store failure is carried
/// as `Other` and is always fatal to the automaton.
#[derive(Clone, Debug, PartialEq)]
pub enum DBError {
    /// No descriptor exists for the pipeline: it has been deleted.
    UnknownPipeline { pipeline_id: PipelineId },
    /// A guarded write found that the descriptor's version had moved on.
    OutdatedPipelineVersion { outdated_version: Version, latest_version: Version },
    /// The store itself failed (connection lost, query error, ...).
    Other { message: String },
}

/// The error envelope persisted in `deployment_error` and surfaced verbatim
/// to the user when a deployment attempt fails.
///
/// The automaton only constructs and stores these values; it never branches
/// on one, so each failure cause is kept as its own structured variant.
#[derive(Clone, Debug, PartialEq)]
pub enum ErrorResponse {
    /// Deployment was requested while the program had failed to compile.
    StartFailedDueToFailedCompilation { compiler_error: String },
    /// The runtime resources did not come up within the provisioning timeout.
    ProvisioningTimeout { timeout_millis: u64 },
    /// The pipeline process did not become reachable within the
    /// initialization timeout.
    InitializingTimeout { timeout_millis: u64 },
    /// Right after initialization the pipeline reported `Running`, which the
    /// automaton never asked for at that point.
    AfterInitializationBecameRunning { pipeline_id: PipelineId },
    /// A status past `Initializing` was persisted without a deployment
    /// location.
    MissingDeploymentLocation,
    /// `Provisioning` was entered without a frozen deployment config.
    MissingDeploymentConfig,
    /// The program compiled but no binary URL was recorded.
    MissingProgramBinaryUrl,
    /// The program compiled but the compiler's output record is absent.
    MissingProgramInfo,
    /// The user-supplied runtime configuration could not be understood.
    InvalidRuntimeConfig { error: String },
    /// The compiler's output record could not be understood.
    InvalidProgramInfo { error: String },
    /// The frozen deployment config read back from the store could not be
    /// understood.
    InvalidDeploymentConfig { error: String },
    /// The descriptor was compiled under a different platform version than
    /// the one this controller runs, discovered at provisioning time.
    CannotProvisionDifferentPlatformVersion {
        pipeline_platform_version: String,
        runner_platform_version: String,
    },
    /// The pipeline's HTTP control surface answered with something that is
    /// not a valid response for the endpoint.
    InvalidPipelineResponse { pipeline_id: PipelineId, error: String },
    /// A non-2xx answer from the pipeline carried a well-formed error
    /// envelope, reproduced here.
    PipelineEndpointError { error_code: String, message: String },
    /// A call through the executor capability failed.
    ExecutorError { message: String },
}

} // verus!
