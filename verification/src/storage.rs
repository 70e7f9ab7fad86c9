//! The descriptor store interface and its transition model.
//!
//! The store is the single source of truth and the serialization point for
//! one pipeline's descriptor: the automaton and the user-facing API race on
//! it, and every automaton write carries the version it observed so that the
//! store can reject writes built on stale reads.
//!
//! Each method's contract accounts for that race: a call may observe any
//! interleaved user activity (a *user step*: edits of the user- and
//! compiler-owned fields, or deletion of the pipeline), but never an
//! unsolicited change of the deployment-owned fields, and a guarded write
//! succeeds exactly against a state whose version equals the guard.

use vstd::prelude::*;
use crate::descriptor::{
    needs_complete_view, ExtendedPipelineDescr, ExtendedPipelineDescrMonitoring,
    ExtendedPipelineDescrRunner,
};
use crate::error::{DBError, ErrorResponse};
use crate::types::{PipelineDesiredStatus, PipelineId, PipelineStatus, TenantId};
use crate::Version;

verus! {

/// The deployment-owned fields of the monitoring view: only the automaton's
/// guarded transitions may change these.
pub open spec fn same_deployment_fields(
    a: ExtendedPipelineDescrMonitoring,
    b: ExtendedPipelineDescrMonitoring,
) -> bool {
    &&& b.id == a.id
    &&& b.deployment_status == a.deployment_status
    &&& b.deployment_status_since == a.deployment_status_since
    &&& b.deployment_location == a.deployment_location
    &&& b.deployment_error == a.deployment_error
}

/// What concurrent user (and compiler) activity may do to a descriptor
/// between two automaton observations: edit name, version, program fields,
/// desired status, runtime configuration or binary URL — but never the
/// deployment-owned fields.
pub open spec fn user_step(a: ExtendedPipelineDescr, b: ExtendedPipelineDescr) -> bool {
    &&& same_deployment_fields(a.monitoring, b.monitoring)
    &&& b.deployment_config == a.deployment_config
}

/// [`user_step`] lifted to a possibly-deleted descriptor: the pipeline may
/// disappear at any time and never reappears under the same identifier.
pub open spec fn user_step_opt(
    a: Option<ExtendedPipelineDescr>,
    b: Option<ExtendedPipelineDescr>,
) -> bool {
    match (a, b) {
        (Some(x), Some(y)) => user_step(x, y),
        (Some(_), None) => true,
        (None, None) => true,
        (None, Some(_)) => false,
    }
}

/// A descriptor after a deployment-status transition: the status is set, and
/// `deployment_status_since` is stamped with the very same write.
pub open spec fn transitioned(
    d: ExtendedPipelineDescr,
    status: PipelineStatus,
    now_millis: i64,
) -> ExtendedPipelineDescr {
    ExtendedPipelineDescr {
        monitoring: ExtendedPipelineDescrMonitoring {
            deployment_status: status,
            deployment_status_since: now_millis,
            ..d.monitoring
        },
        ..d
    }
}

/// Entering `Provisioning` freezes the deployment configuration.
pub open spec fn with_provisioning(
    d: ExtendedPipelineDescr,
    deployment_config: serde_json::Value,
    now_millis: i64,
) -> ExtendedPipelineDescr {
    ExtendedPipelineDescr {
        deployment_config: Some(deployment_config),
        ..transitioned(d, PipelineStatus::Provisioning, now_millis)
    }
}

/// Entering `Initializing` records where the pipeline can be reached.
pub open spec fn with_initializing(
    d: ExtendedPipelineDescr,
    deployment_location: String,
    now_millis: i64,
) -> ExtendedPipelineDescr {
    let t = transitioned(d, PipelineStatus::Initializing, now_millis);
    ExtendedPipelineDescr {
        monitoring: ExtendedPipelineDescrMonitoring {
            deployment_location: Some(deployment_location),
            ..t.monitoring
        },
        ..t
    }
}

/// Entering `Failed` records the error for the user-facing read API.
pub open spec fn with_failed(
    d: ExtendedPipelineDescr,
    deployment_error: ErrorResponse,
    now_millis: i64,
) -> ExtendedPipelineDescr {
    let t = transitioned(d, PipelineStatus::Failed, now_millis);
    ExtendedPipelineDescr {
        monitoring: ExtendedPipelineDescrMonitoring {
            deployment_error: Some(deployment_error),
            ..t.monitoring
        },
        ..t
    }
}

/// Entering `Shutdown` clears the deployment location: nothing is running
/// any more.
pub open spec fn with_shutdown(d: ExtendedPipelineDescr, now_millis: i64) -> ExtendedPipelineDescr {
    let t = transitioned(d, PipelineStatus::Shutdown, now_millis);
    ExtendedPipelineDescr {
        monitoring: ExtendedPipelineDescrMonitoring {
            deployment_location: None,
            ..t.monitoring
        },
        ..t
    }
}

/// The common shape of every version-guarded write: on success the write
/// applied `apply` to a state whose version equalled the guard and that the
/// automaton's prior observation could evolve into by user activity alone;
/// on any failure nothing but user activity is observed, and a stale-guard
/// rejection names the guard it rejected.
pub open spec fn guarded_write_post(
    pre: Option<ExtendedPipelineDescr>,
    post: Option<ExtendedPipelineDescr>,
    r: Result<(), DBError>,
    version_guard: Version,
    apply: spec_fn(ExtendedPipelineDescr) -> ExtendedPipelineDescr,
) -> bool {
    match r {
        Ok(()) => exists|d: ExtendedPipelineDescr|
            {
                &&& #[trigger] user_step_opt(pre, Some(d))
                &&& d.monitoring.version == version_guard
                &&& post == Some(apply(d))
            },
        Err(e) => {
            &&& user_step_opt(pre, post)
            &&& match e {
                DBError::OutdatedPipelineVersion { outdated_version, latest_version } => {
                    &&& outdated_version == version_guard
                    &&& latest_version != version_guard
                },
                DBError::UnknownPipeline { .. } => post is None,
                DBError::Other { .. } => true,
            }
        },
    }
}

/// The view a runner read returns for a current state `d`: the complete view
/// exactly when the upcoming transition could need it, the monitoring view
/// otherwise.
pub open spec fn runner_view_matches(
    d: ExtendedPipelineDescr,
    p: ExtendedPipelineDescrRunner,
    controller_platform_version: Seq<char>,
    provision_called: bool,
) -> bool {
    if needs_complete_view(d.monitoring, controller_platform_version, provision_called) {
        p == ExtendedPipelineDescrRunner::Complete(d)
    } else {
        p == ExtendedPipelineDescrRunner::Monitoring(d.monitoring)
    }
}

/// The store operations the deployment automaton relies on.
///
/// The backing implementation (a relational database in production, an
/// in-memory table in tests) is not verified; these contracts are the
/// interface the automaton is proved against, and implementers must honour
/// them. `pipeline` is the store's current record for the one pipeline an
/// automaton owns, `None` once the pipeline is deleted. Every guarded
/// transition takes the cycle's clock reading and stamps
/// `deployment_status_since` with it in the very same write.
pub trait Storage {
    spec fn pipeline(&self) -> Option<ExtendedPipelineDescr>;

    /// Reads the descriptor, returning the complete view exactly when the
    /// upcoming transition could need it (derived from the current state and
    /// `provision_called`), and the monitoring view otherwise.
    fn get_pipeline_by_id_for_runner(
        &mut self,
        tenant_id: TenantId,
        pipeline_id: PipelineId,
        platform_version: &String,
        provision_called: bool,
    ) -> (r: Result<ExtendedPipelineDescrRunner, DBError>)
        ensures
            user_step_opt(old(self).pipeline(), final(self).pipeline()),
            (match r {
                Ok(p) => {
                    &&& final(self).pipeline() matches Some(d)
                    &&& runner_view_matches(
                        final(self).pipeline()->Some_0,
                        p,
                        platform_version@,
                        provision_called,
                    )
                },
                Err(e) => match e {
                    DBError::UnknownPipeline { .. } => final(self).pipeline() is None,
                    DBError::OutdatedPipelineVersion { .. } => false,
                    DBError::Other { .. } => true,
                },
            }),
    ;

    /// Guarded transition to `Provisioning`, freezing the deployment
    /// configuration computed for the guarded version.
    fn transit_deployment_status_to_provisioning(
        &mut self,
        tenant_id: TenantId,
        pipeline_id: PipelineId,
        version_guard: Version,
        deployment_config: serde_json::Value,
        now_millis: i64,
    ) -> (r: Result<(), DBError>)
        ensures
            guarded_write_post(
                old(self).pipeline(),
                final(self).pipeline(),
                r,
                version_guard,
                (|d: ExtendedPipelineDescr| with_provisioning(d, deployment_config, now_millis)),
            ),
    ;

    /// Guarded transition to `Initializing`, recording the deployment
    /// location.
    fn transit_deployment_status_to_initializing(
        &mut self,
        tenant_id: TenantId,
        pipeline_id: PipelineId,
        version_guard: Version,
        deployment_location: String,
        now_millis: i64,
    ) -> (r: Result<(), DBError>)
        ensures
            guarded_write_post(
                old(self).pipeline(),
                final(self).pipeline(),
                r,
                version_guard,
                (|d: ExtendedPipelineDescr| with_initializing(d, deployment_location, now_millis)),
            ),
    ;

    /// Guarded transition to `Paused`.
    fn transit_deployment_status_to_paused(
        &mut self,
        tenant_id: TenantId,
        pipeline_id: PipelineId,
        version_guard: Version,
        now_millis: i64,
    ) -> (r: Result<(), DBError>)
        ensures
            guarded_write_post(
                old(self).pipeline(),
                final(self).pipeline(),
                r,
                version_guard,
                (|d: ExtendedPipelineDescr| transitioned(d, PipelineStatus::Paused, now_millis)),
            ),
    ;

    /// Guarded transition to `Running`.
    fn transit_deployment_status_to_running(
        &mut self,
        tenant_id: TenantId,
        pipeline_id: PipelineId,
        version_guard: Version,
        now_millis: i64,
    ) -> (r: Result<(), DBError>)
        ensures
            guarded_write_post(
                old(self).pipeline(),
                final(self).pipeline(),
                r,
                version_guard,
                (|d: ExtendedPipelineDescr| transitioned(d, PipelineStatus::Running, now_millis)),
            ),
    ;

    /// Guarded transition to `Unavailable`.
    fn transit_deployment_status_to_unavailable(
        &mut self,
        tenant_id: TenantId,
        pipeline_id: PipelineId,
        version_guard: Version,
        now_millis: i64,
    ) -> (r: Result<(), DBError>)
        ensures
            guarded_write_post(
                old(self).pipeline(),
                final(self).pipeline(),
                r,
                version_guard,
                (|d: ExtendedPipelineDescr| transitioned(
                    d,
                    PipelineStatus::Unavailable,
                    now_millis,
                )),
            ),
    ;

    /// Guarded transition to `ShuttingDown`.
    fn transit_deployment_status_to_shutting_down(
        &mut self,
        tenant_id: TenantId,
        pipeline_id: PipelineId,
        version_guard: Version,
        now_millis: i64,
    ) -> (r: Result<(), DBError>)
        ensures
            guarded_write_post(
                old(self).pipeline(),
                final(self).pipeline(),
                r,
                version_guard,
                (|d: ExtendedPipelineDescr| transitioned(
                    d,
                    PipelineStatus::ShuttingDown,
                    now_millis,
                )),
            ),
    ;

    /// Guarded transition to `Shutdown`, clearing the deployment location.
    fn transit_deployment_status_to_shutdown(
        &mut self,
        tenant_id: TenantId,
        pipeline_id: PipelineId,
        version_guard: Version,
        now_millis: i64,
    ) -> (r: Result<(), DBError>)
        ensures
            guarded_write_post(
                old(self).pipeline(),
                final(self).pipeline(),
                r,
                version_guard,
                (|d: ExtendedPipelineDescr| with_shutdown(d, now_millis)),
            ),
    ;

    /// Guarded transition to `Failed`, recording the deployment error.
    fn transit_deployment_status_to_failed(
        &mut self,
        tenant_id: TenantId,
        pipeline_id: PipelineId,
        version_guard: Version,
        deployment_error: ErrorResponse,
        now_millis: i64,
    ) -> (r: Result<(), DBError>)
        ensures
            guarded_write_post(
                old(self).pipeline(),
                final(self).pipeline(),
                r,
                version_guard,
                (|d: ExtendedPipelineDescr| with_failed(d, deployment_error, now_millis)),
            ),
    ;

    /// Sets the program status back to `Pending`, guarded by the program
    /// version, so that the compiler picks the program up again. Touches no
    /// deployment-owned field.
    fn transit_program_status_to_pending(
        &mut self,
        tenant_id: TenantId,
        pipeline_id: PipelineId,
        program_version_guard: Version,
    ) -> (r: Result<(), DBError>)
        ensures
            user_step_opt(old(self).pipeline(), final(self).pipeline()),
            (r matches Ok(()) ==> final(self).pipeline() matches Some(d)
                && d.monitoring.program_status is Pending
                && d.monitoring.program_version == program_version_guard),
    ;

    /// User-facing intent: asks for the pipeline to run.
    fn set_deployment_desired_status_running(
        &mut self,
        tenant_id: TenantId,
        pipeline_name: &String,
    ) -> (r: Result<(), DBError>)
        ensures
            user_step_opt(old(self).pipeline(), final(self).pipeline()),
            (r matches Ok(()) ==> final(self).pipeline() matches Some(d)
                && d.monitoring.deployment_desired_status is Running),
    ;

    /// User-facing intent: asks for the pipeline to stand paused.
    fn set_deployment_desired_status_paused(
        &mut self,
        tenant_id: TenantId,
        pipeline_name: &String,
    ) -> (r: Result<(), DBError>)
        ensures
            user_step_opt(old(self).pipeline(), final(self).pipeline()),
            (r matches Ok(()) ==> final(self).pipeline() matches Some(d)
                && d.monitoring.deployment_desired_status is Paused),
    ;

    /// User-facing intent: asks for the pipeline to be torn down.
    fn set_deployment_desired_status_shutdown(
        &mut self,
        tenant_id: TenantId,
        pipeline_name: &String,
    ) -> (r: Result<(), DBError>)
        ensures
            user_step_opt(old(self).pipeline(), final(self).pipeline()),
            (r matches Ok(()) ==> final(self).pipeline() matches Some(d)
                && d.monitoring.deployment_desired_status is Shutdown),
    ;

    /// Reads the complete descriptor, as the user-facing API does.
    fn get_pipeline_by_id(
        &mut self,
        tenant_id: TenantId,
        pipeline_id: PipelineId,
    ) -> (r: Result<ExtendedPipelineDescr, DBError>)
        ensures
            user_step_opt(old(self).pipeline(), final(self).pipeline()),
            (r matches Ok(d) ==> final(self).pipeline() == Some(d)),
    ;
}

} // verus!
