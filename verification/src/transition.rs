//! Transitions of the deployment automaton, as values.
//!
//! A run cycle first *decides* on a [`State`] value and only then *applies*
//! it with a guarded store write; the two halves are kept separable so that
//! the stale-version retry on the `Shutdown` to `Provisioning` boundary, and
//! every decision rule, can be stated and tested on their own.

use vstd::prelude::*;
use crate::clock::spec_timeout_expired;
use crate::error::ErrorResponse;
use crate::json::{json_field, json_str_of};
use crate::strutil::{join_lines, spec_joined_lines};
use crate::types::{PipelineId, PipelineStatus, ProgramStatus};
use crate::Version;

verus! {

/// The state change one run cycle has decided on. Every write carries the
/// version observed when the cycle read the descriptor.
#[derive(Debug, PartialEq)]
pub enum State {
    TransitionToProvisioning { version_guard: Version, deployment_config: serde_json::Value },
    TransitionToInitializing { version_guard: Version, deployment_location: String },
    TransitionToPaused { version_guard: Version },
    TransitionToRunning { version_guard: Version },
    TransitionToUnavailable { version_guard: Version },
    TransitionToFailed { version_guard: Version, error: ErrorResponse },
    TransitionToShuttingDown { version_guard: Version },
    TransitionToShutdown { version_guard: Version },
    Unchanged,
}

impl State {
    /// The version guard the transition will be written under; immaterial
    /// for [`State::Unchanged`], which is never written.
    pub open spec fn spec_guard(&self) -> Version {
        match self {
            State::TransitionToProvisioning { version_guard, .. } => *version_guard,
            State::TransitionToInitializing { version_guard, .. } => *version_guard,
            State::TransitionToPaused { version_guard } => *version_guard,
            State::TransitionToRunning { version_guard } => *version_guard,
            State::TransitionToUnavailable { version_guard } => *version_guard,
            State::TransitionToFailed { version_guard, .. } => *version_guard,
            State::TransitionToShuttingDown { version_guard } => *version_guard,
            State::TransitionToShutdown { version_guard } => *version_guard,
            State::Unchanged => Version(0),
        }
    }

    /// Whether this is a `Failed` transition under the given guard whose
    /// error the given predicate accepts.
    pub open spec fn is_failure_with(
        &self,
        version: Version,
        kind: spec_fn(ErrorResponse) -> bool,
    ) -> bool {
        match self {
            State::TransitionToFailed { version_guard, error } => *version_guard == version
                && kind(*error),
            _ => false,
        }
    }

    /// The deployment status the transition moves to; `None` for
    /// [`State::Unchanged`].
    pub open spec fn spec_target(&self) -> Option<PipelineStatus> {
        match self {
            State::TransitionToProvisioning { .. } => Some(PipelineStatus::Provisioning),
            State::TransitionToInitializing { .. } => Some(PipelineStatus::Initializing),
            State::TransitionToPaused { .. } => Some(PipelineStatus::Paused),
            State::TransitionToRunning { .. } => Some(PipelineStatus::Running),
            State::TransitionToUnavailable { .. } => Some(PipelineStatus::Unavailable),
            State::TransitionToFailed { .. } => Some(PipelineStatus::Failed),
            State::TransitionToShuttingDown { .. } => Some(PipelineStatus::ShuttingDown),
            State::TransitionToShutdown { .. } => Some(PipelineStatus::Shutdown),
            State::Unchanged => None,
        }
    }
}

/// Outcome of a status check for a pipeline by polling its `/stats`
/// endpoint.
#[derive(Debug, PartialEq)]
pub enum StatusCheckResult {
    Paused,
    Running,
    /// Unable to be reached, or responded that it is not yet ready.
    Unavailable,
    /// The response could not be understood or reported an error.
    Error(ErrorResponse),
}

/// The compiler message a failed deployment attempt reports for a program
/// that did not compile: the SQL compiler's messages joined by newlines, or
/// the Rust or system error text.
pub open spec fn spec_compilation_error_text(ps: ProgramStatus) -> Seq<char> {
    match ps {
        ProgramStatus::SqlError(msgs) => spec_joined_lines(msgs.deep_view()),
        ProgramStatus::RustError(e) => e@,
        ProgramStatus::SystemError(e) => e@,
        _ => Seq::empty(),
    }
}

/// For a program that failed to compile, the `Failed` transition carrying
/// the compiler's message; `None` for any other program status.
pub fn decide_early_start_transition(program_status: &ProgramStatus, version: Version) -> (r:
    Option<State>)
    ensures
        r is Some <==> program_status.spec_is_compilation_error(),
        (r matches Some(t) ==> (t matches State::TransitionToFailed { version_guard, error }
            && (version_guard == version
                && (error matches ErrorResponse::StartFailedDueToFailedCompilation {
                    compiler_error,
                } && compiler_error@ == spec_compilation_error_text(*program_status))))),
{
    match program_status {
        ProgramStatus::SqlError(msgs) => Some(State::TransitionToFailed {
            version_guard: version,
            error: ErrorResponse::StartFailedDueToFailedCompilation {
                compiler_error: join_lines(msgs),
            },
        }),
        ProgramStatus::RustError(e) => Some(State::TransitionToFailed {
            version_guard: version,
            error: ErrorResponse::StartFailedDueToFailedCompilation { compiler_error: e.clone() },
        }),
        ProgramStatus::SystemError(e) => Some(State::TransitionToFailed {
            version_guard: version,
            error: ErrorResponse::StartFailedDueToFailedCompilation { compiler_error: e.clone() },
        }),
        _ => None,
    }
}

/// How an error envelope is parsed out of a non-2xx JSON body: an object
/// with a string `message` and a string `error_code` is reproduced exactly;
/// anything else is wrapped as an invalid response for the pipeline.
pub open spec fn error_envelope_matches(
    pipeline_id: PipelineId,
    body: serde_json::Value,
    r: ErrorResponse,
) -> bool {
    match (json_field(body, "message"@), json_field(body, "error_code"@)) {
        (Some(m), Some(c)) => match (json_str_of(m), json_str_of(c)) {
            (Some(ms), Some(cs)) => r matches ErrorResponse::PipelineEndpointError {
                error_code,
                message,
            } && error_code@ == cs && message@ == ms,
            _ => r matches ErrorResponse::InvalidPipelineResponse { pipeline_id: p, .. } && p
                == pipeline_id,
        },
        _ => r matches ErrorResponse::InvalidPipelineResponse { pipeline_id: p, .. } && p
            == pipeline_id,
    }
}

/// The `global_metrics.state` string of a `/stats` body, when the body
/// carries one.
pub open spec fn spec_stats_state(body: serde_json::Value) -> Option<Seq<char>> {
    match json_field(body, "global_metrics"@) {
        Some(global_metrics) => match json_field(global_metrics, "state"@) {
            Some(state) => json_str_of(state),
            None => None,
        },
        None => None,
    }
}

/// How one answer of the `/stats` endpoint is classified: a 200 with
/// `global_metrics.state` of `"Paused"` or `"Running"` names the state; any
/// other 200 body is an invalid response; a 503 means the web server is up
/// but the pipeline is not ready; any other status carries the parsed error
/// envelope.
pub open spec fn stats_classification_matches(
    pipeline_id: PipelineId,
    status: u16,
    body: serde_json::Value,
    r: StatusCheckResult,
) -> bool {
    if status == 200 {
        match spec_stats_state(body) {
            Some(s) => if s == "Paused"@ {
                r is Paused
            } else if s == "Running"@ {
                r is Running
            } else {
                r matches StatusCheckResult::Error(e)
                    && e matches ErrorResponse::InvalidPipelineResponse { pipeline_id: p, .. }
                    && p == pipeline_id
            },
            None => r matches StatusCheckResult::Error(e)
                && e matches ErrorResponse::InvalidPipelineResponse { pipeline_id: p, .. }
                && p == pipeline_id,
        }
    } else if status == 503 {
        r is Unavailable
    } else {
        r matches StatusCheckResult::Error(e) && error_envelope_matches(pipeline_id, body, e)
    }
}

/// Decision while awaiting provisioning, given the executor's poll result:
/// a location moves on to `Initializing`; still-provisioning waits until the
/// provisioning timeout has expired and then fails; an executor error fails
/// at once.
pub open spec fn spec_decide_awaiting(
    version: Version,
    since_millis: i64,
    provisioning_timeout_millis: u64,
    now_millis: i64,
    r: Result<Option<String>, ErrorResponse>,
) -> State {
    match r {
        Ok(loc) => match loc {
            Some(deployment_location) => State::TransitionToInitializing {
                version_guard: version,
                deployment_location,
            },
            None => if spec_timeout_expired(
                since_millis as int,
                provisioning_timeout_millis as int,
                now_millis as int,
            ) {
                State::TransitionToFailed {
                    version_guard: version,
                    error: ErrorResponse::ProvisioningTimeout {
                        timeout_millis: provisioning_timeout_millis,
                    },
                }
            } else {
                State::Unchanged
            },
        },
        Err(error) => State::TransitionToFailed { version_guard: version, error },
    }
}

/// Executable twin of [`spec_decide_awaiting`].
pub fn decide_awaiting(
    version: Version,
    since_millis: i64,
    provisioning_timeout_millis: u64,
    now_millis: i64,
    r: Result<Option<String>, ErrorResponse>,
) -> (t: State)
    ensures
        t == spec_decide_awaiting(
            version,
            since_millis,
            provisioning_timeout_millis,
            now_millis,
            r,
        ),
{
    match r {
        Ok(Some(deployment_location)) => State::TransitionToInitializing {
            version_guard: version,
            deployment_location,
        },
        Ok(None) => {
            if crate::clock::has_timeout_expired(
                since_millis,
                provisioning_timeout_millis,
                now_millis,
            ) {
                State::TransitionToFailed {
                    version_guard: version,
                    error: ErrorResponse::ProvisioningTimeout {
                        timeout_millis: provisioning_timeout_millis,
                    },
                }
            } else {
                State::Unchanged
            }
        },
        Err(error) => State::TransitionToFailed { version_guard: version, error },
    }
}

/// Decision while `Initializing`, given the `/stats` probe outcome: a
/// paused pipeline has finished initializing; a running one is a failure
/// (nothing asked it to run); an unreachable one waits until the
/// initialization timeout has expired and then fails; a reported error
/// fails at once.
pub open spec fn spec_decide_initializing(
    version: Version,
    pipeline_id: PipelineId,
    scr: StatusCheckResult,
    since_millis: i64,
    initialization_timeout_millis: u64,
    now_millis: i64,
) -> State {
    match scr {
        StatusCheckResult::Paused => State::TransitionToPaused { version_guard: version },
        StatusCheckResult::Running => State::TransitionToFailed {
            version_guard: version,
            error: ErrorResponse::AfterInitializationBecameRunning { pipeline_id },
        },
        StatusCheckResult::Unavailable => if spec_timeout_expired(
            since_millis as int,
            initialization_timeout_millis as int,
            now_millis as int,
        ) {
            State::TransitionToFailed {
                version_guard: version,
                error: ErrorResponse::InitializingTimeout {
                    timeout_millis: initialization_timeout_millis,
                },
            }
        } else {
            State::Unchanged
        },
        StatusCheckResult::Error(error) => State::TransitionToFailed {
            version_guard: version,
            error,
        },
    }
}

/// Executable twin of [`spec_decide_initializing`].
pub fn decide_initializing(
    version: Version,
    pipeline_id: PipelineId,
    scr: StatusCheckResult,
    since_millis: i64,
    initialization_timeout_millis: u64,
    now_millis: i64,
) -> (t: State)
    ensures
        t == spec_decide_initializing(
            version,
            pipeline_id,
            scr,
            since_millis,
            initialization_timeout_millis,
            now_millis,
        ),
{
    match scr {
        StatusCheckResult::Paused => State::TransitionToPaused { version_guard: version },
        StatusCheckResult::Running => State::TransitionToFailed {
            version_guard: version,
            error: ErrorResponse::AfterInitializationBecameRunning { pipeline_id },
        },
        StatusCheckResult::Unavailable => {
            if crate::clock::has_timeout_expired(
                since_millis,
                initialization_timeout_millis,
                now_millis,
            ) {
                State::TransitionToFailed {
                    version_guard: version,
                    error: ErrorResponse::InitializingTimeout {
                        timeout_millis: initialization_timeout_millis,
                    },
                }
            } else {
                State::Unchanged
            }
        },
        StatusCheckResult::Error(error) => State::TransitionToFailed {
            version_guard: version,
            error,
        },
    }
}

/// Decision when reconciling a pipeline past `Initializing` with what the
/// `/stats` probe observed: the observed state wins where it differs from
/// the stored one, unreachability parks the pipeline in `Unavailable`, and
/// a reported error fails the deployment.
pub open spec fn spec_decide_probe(
    stored: PipelineStatus,
    version: Version,
    scr: StatusCheckResult,
) -> State {
    match scr {
        StatusCheckResult::Paused => if stored is Paused {
            State::Unchanged
        } else {
            State::TransitionToPaused { version_guard: version }
        },
        StatusCheckResult::Running => if stored is Running {
            State::Unchanged
        } else {
            State::TransitionToRunning { version_guard: version }
        },
        StatusCheckResult::Unavailable => if stored is Unavailable {
            State::Unchanged
        } else {
            State::TransitionToUnavailable { version_guard: version }
        },
        StatusCheckResult::Error(error) => State::TransitionToFailed {
            version_guard: version,
            error,
        },
    }
}

/// Executable twin of [`spec_decide_probe`].
pub fn decide_probe(stored: PipelineStatus, version: Version, scr: StatusCheckResult) -> (t: State)
    ensures
        t == spec_decide_probe(stored, version, scr),
{
    match scr {
        StatusCheckResult::Paused => {
            if stored == PipelineStatus::Paused {
                State::Unchanged
            } else {
                State::TransitionToPaused { version_guard: version }
            }
        },
        StatusCheckResult::Running => {
            if stored == PipelineStatus::Running {
                State::Unchanged
            } else {
                State::TransitionToRunning { version_guard: version }
            }
        },
        StatusCheckResult::Unavailable => {
            if stored == PipelineStatus::Unavailable {
                State::Unchanged
            } else {
                State::TransitionToUnavailable { version_guard: version }
            }
        },
        StatusCheckResult::Error(error) => State::TransitionToFailed {
            version_guard: version,
            error,
        },
    }
}

/// Decision after asking a pipeline to start or pause: a 200 confirms the
/// new state; unreachability or a 503 parks it in `Unavailable`; any other
/// answer fails with the parsed error envelope.
pub open spec fn spec_decide_action(
    version: Version,
    is_start: bool,
    reachable: bool,
    status: u16,
    parsed: ErrorResponse,
) -> State {
    if !reachable {
        State::TransitionToUnavailable { version_guard: version }
    } else if status == 200 {
        if is_start {
            State::TransitionToRunning { version_guard: version }
        } else {
            State::TransitionToPaused { version_guard: version }
        }
    } else if status == 503 {
        State::TransitionToUnavailable { version_guard: version }
    } else {
        State::TransitionToFailed { version_guard: version, error: parsed }
    }
}

/// Executable twin of [`spec_decide_action`]. The parsed envelope only
/// reaches the decision for an answer outside the 200 and 503 statuses.
pub fn decide_action(
    version: Version,
    is_start: bool,
    reachable: bool,
    status: u16,
    parsed: ErrorResponse,
) -> (t: State)
    ensures
        t == spec_decide_action(version, is_start, reachable, status, parsed),
{
    if !reachable {
        State::TransitionToUnavailable { version_guard: version }
    } else if status == 200 {
        if is_start {
            State::TransitionToRunning { version_guard: version }
        } else {
            State::TransitionToPaused { version_guard: version }
        }
    } else if status == 503 {
        State::TransitionToUnavailable { version_guard: version }
    } else {
        State::TransitionToFailed { version_guard: version, error: parsed }
    }
}

/// Decision while `ShuttingDown`, given the executor's answer: a successful
/// shutdown completes the teardown; a failed one is retried next cycle.
pub open spec fn spec_decide_shutdown(version: Version, r: Result<(), ErrorResponse>) -> State {
    match r {
        Ok(()) => State::TransitionToShutdown { version_guard: version },
        Err(_) => State::Unchanged,
    }
}

} // verus!
