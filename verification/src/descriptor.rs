//! The pipeline descriptor: the persistent record for one pipeline.
//!
//! The store offers two read projections. The monitoring view is cheap and
//! always loaded; the complete view additionally carries the user's runtime
//! configuration, the compiler's output record, the frozen deployment
//! configuration and the program binary URL, and is loaded only for the two
//! transitions that need those fields.

use vstd::prelude::*;
use crate::error::ErrorResponse;
use crate::types::{PipelineDesiredStatus, PipelineId, PipelineStatus, ProgramStatus};
use crate::Version;

verus! {

/// The monitoring view of a pipeline descriptor.
#[derive(Clone, Debug)]
pub struct ExtendedPipelineDescrMonitoring {
    pub id: PipelineId,
    pub name: String,
    /// Bumped on any user edit that affects deployment semantics; every
    /// guarded write passes the version it observed.
    pub version: Version,
    /// Platform version the program was compiled under.
    pub platform_version: String,
    /// Bumped on edits of the program itself.
    pub program_version: Version,
    pub program_status: ProgramStatus,
    pub deployment_status: PipelineStatus,
    pub deployment_desired_status: PipelineDesiredStatus,
    /// When `deployment_status` last changed, in milliseconds since the
    /// Unix epoch.
    pub deployment_status_since: i64,
    /// Where the running pipeline can be reached; set when provisioning
    /// succeeds and cleared on shutdown.
    pub deployment_location: Option<String>,
    /// The last deployment error, kept for the user-facing read API.
    pub deployment_error: Option<ErrorResponse>,
}

/// The complete view of a pipeline descriptor: the monitoring view plus the
/// heavyweight fields needed to start a deployment.
#[derive(Clone, Debug)]
pub struct ExtendedPipelineDescr {
    pub monitoring: ExtendedPipelineDescrMonitoring,
    /// User-supplied runtime configuration, as persisted.
    pub runtime_config: serde_json::Value,
    /// Compiler output record, present once SQL compilation has succeeded.
    pub program_info: Option<serde_json::Value>,
    /// Deployment configuration frozen on the `Shutdown` to `Provisioning`
    /// transition.
    pub deployment_config: Option<serde_json::Value>,
    /// Where the compiled program binary can be fetched.
    pub program_binary_url: Option<String>,
}

/// What a descriptor read for the automaton returns: the complete view when
/// the upcoming transition needs it, the monitoring view otherwise.
#[derive(Clone, Debug)]
pub enum ExtendedPipelineDescrRunner {
    Monitoring(ExtendedPipelineDescrMonitoring),
    Complete(ExtendedPipelineDescr),
}

impl ExtendedPipelineDescrRunner {
    /// The monitoring view carried by either variant.
    pub open spec fn spec_monitoring(&self) -> ExtendedPipelineDescrMonitoring {
        match self {
            ExtendedPipelineDescrRunner::Monitoring(m) => *m,
            ExtendedPipelineDescrRunner::Complete(c) => c.monitoring,
        }
    }

    /// Projects the monitoring view out of either variant.
    pub fn only_monitoring(&self) -> (r: &ExtendedPipelineDescrMonitoring)
        ensures
            *r == self.spec_monitoring(),
    {
        match self {
            ExtendedPipelineDescrRunner::Monitoring(m) => m,
            ExtendedPipelineDescrRunner::Complete(c) => &c.monitoring,
        }
    }
}

/// Whether a cycle that observes this descriptor could need the complete
/// view: exactly on the `Shutdown` to `Provisioning` boundary with a program
/// compiled at the controller's platform version, and in `Provisioning`
/// before `provision` has been called.
pub open spec fn needs_complete_view(
    d: ExtendedPipelineDescrMonitoring,
    controller_platform_version: Seq<char>,
    provision_called: bool,
) -> bool {
    let desired_up = d.deployment_desired_status is Paused
        || d.deployment_desired_status is Running;
    ||| (d.deployment_status is Shutdown && desired_up && d.program_status.is_success()
        && d.platform_version@ == controller_platform_version)
    ||| (d.deployment_status is Provisioning && desired_up && !provision_called)
}

/// On controller restart, the executor must reattach to prior runtime
/// resources exactly when the persisted status says resources may exist:
/// anything past `Provisioning`.
pub open spec fn spec_was_provisioned(status: PipelineStatus) -> bool {
    !(status is Shutdown) && !(status is Provisioning)
}

/// Executable twin of [`spec_was_provisioned`].
pub fn was_provisioned(status: PipelineStatus) -> (r: bool)
    ensures
        r == spec_was_provisioned(status),
{
    status != PipelineStatus::Shutdown && status != PipelineStatus::Provisioning
}

} // verus!
