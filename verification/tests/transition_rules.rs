//! Unit tests of the pure per-cycle decision functions.

use pipeline_manager::error::ErrorResponse;
use pipeline_manager::transition::{
    decide_action, decide_awaiting, decide_early_start_transition, decide_initializing,
    decide_probe, State, StatusCheckResult,
};
use pipeline_manager::types::{PipelineId, PipelineStatus, ProgramStatus};
use pipeline_manager::Version;

const V: Version = Version(4);
const PID: PipelineId = PipelineId(9);

#[test]
fn awaiting_moves_to_initializing_on_location() {
    let t = decide_awaiting(V, 1_000, 10_000, 2_000, Ok(Some("host:8080".to_string())));
    assert_eq!(
        t,
        State::TransitionToInitializing {
            version_guard: V,
            deployment_location: "host:8080".to_string()
        }
    );
}

#[test]
fn awaiting_waits_within_timeout() {
    let t = decide_awaiting(V, 1_000, 10_000, 11_000, Ok(None));
    assert_eq!(t, State::Unchanged);
}

#[test]
fn awaiting_fails_past_timeout() {
    let t = decide_awaiting(V, 1_000, 10_000, 11_001, Ok(None));
    assert_eq!(
        t,
        State::TransitionToFailed {
            version_guard: V,
            error: ErrorResponse::ProvisioningTimeout {
                timeout_millis: 10_000
            }
        }
    );
}

#[test]
fn awaiting_fails_on_executor_error() {
    let e = ErrorResponse::ExecutorError {
        message: "gone".to_string(),
    };
    let t = decide_awaiting(V, 1_000, 10_000, 2_000, Err(e.clone()));
    assert_eq!(
        t,
        State::TransitionToFailed {
            version_guard: V,
            error: e
        }
    );
}

#[test]
fn initializing_completes_on_paused() {
    let t = decide_initializing(V, PID, StatusCheckResult::Paused, 0, 60_000, 100);
    assert_eq!(t, State::TransitionToPaused { version_guard: V });
}

#[test]
fn initializing_rejects_running() {
    let t = decide_initializing(V, PID, StatusCheckResult::Running, 0, 60_000, 100);
    assert_eq!(
        t,
        State::TransitionToFailed {
            version_guard: V,
            error: ErrorResponse::AfterInitializationBecameRunning { pipeline_id: PID }
        }
    );
}

#[test]
fn initializing_waits_while_unavailable() {
    let t = decide_initializing(V, PID, StatusCheckResult::Unavailable, 0, 60_000, 60_000);
    assert_eq!(t, State::Unchanged);
}

#[test]
fn initializing_times_out_while_unavailable() {
    let t = decide_initializing(V, PID, StatusCheckResult::Unavailable, 0, 60_000, 60_001);
    assert_eq!(
        t,
        State::TransitionToFailed {
            version_guard: V,
            error: ErrorResponse::InitializingTimeout {
                timeout_millis: 60_000
            }
        }
    );
}

#[test]
fn probe_keeps_matching_state() {
    assert_eq!(
        decide_probe(PipelineStatus::Paused, V, StatusCheckResult::Paused),
        State::Unchanged
    );
    assert_eq!(
        decide_probe(PipelineStatus::Running, V, StatusCheckResult::Running),
        State::Unchanged
    );
    assert_eq!(
        decide_probe(PipelineStatus::Unavailable, V, StatusCheckResult::Unavailable),
        State::Unchanged
    );
}

#[test]
fn probe_follows_observed_state() {
    assert_eq!(
        decide_probe(PipelineStatus::Running, V, StatusCheckResult::Paused),
        State::TransitionToPaused { version_guard: V }
    );
    assert_eq!(
        decide_probe(PipelineStatus::Paused, V, StatusCheckResult::Running),
        State::TransitionToRunning { version_guard: V }
    );
    assert_eq!(
        decide_probe(PipelineStatus::Paused, V, StatusCheckResult::Unavailable),
        State::TransitionToUnavailable { version_guard: V }
    );
}

#[test]
fn probe_fails_on_reported_error() {
    let e = ErrorResponse::InvalidPipelineResponse {
        pipeline_id: PID,
        error: "nonsense".to_string(),
    };
    assert_eq!(
        decide_probe(PipelineStatus::Running, V, StatusCheckResult::Error(e.clone())),
        State::TransitionToFailed {
            version_guard: V,
            error: e
        }
    );
}

#[test]
fn early_start_joins_sql_messages() {
    let status = ProgramStatus::SqlError(vec!["one".to_string(), "two".to_string()]);
    let t = decide_early_start_transition(&status, V);
    assert_eq!(
        t,
        Some(State::TransitionToFailed {
            version_guard: V,
            error: ErrorResponse::StartFailedDueToFailedCompilation {
                compiler_error: "one\ntwo".to_string()
            }
        })
    );
}

#[test]
fn early_start_carries_rust_and_system_errors() {
    let t = decide_early_start_transition(&ProgramStatus::RustError("rustc".to_string()), V);
    assert_eq!(
        t,
        Some(State::TransitionToFailed {
            version_guard: V,
            error: ErrorResponse::StartFailedDueToFailedCompilation {
                compiler_error: "rustc".to_string()
            }
        })
    );
    let t = decide_early_start_transition(&ProgramStatus::SystemError("disk".to_string()), V);
    assert_eq!(
        t,
        Some(State::TransitionToFailed {
            version_guard: V,
            error: ErrorResponse::StartFailedDueToFailedCompilation {
                compiler_error: "disk".to_string()
            }
        })
    );
}

#[test]
fn early_start_waits_on_non_error_statuses() {
    assert_eq!(decide_early_start_transition(&ProgramStatus::Pending, V), None);
    assert_eq!(decide_early_start_transition(&ProgramStatus::CompilingSql, V), None);
    assert_eq!(decide_early_start_transition(&ProgramStatus::SqlCompiled, V), None);
    assert_eq!(decide_early_start_transition(&ProgramStatus::CompilingRust, V), None);
    assert_eq!(decide_early_start_transition(&ProgramStatus::Success, V), None);
}

#[test]
fn action_follows_the_answer() {
    let parsed = ErrorResponse::PipelineEndpointError {
        error_code: "X".to_string(),
        message: "boom".to_string(),
    };
    assert_eq!(
        decide_action(V, true, true, 200, parsed.clone()),
        State::TransitionToRunning { version_guard: V }
    );
    assert_eq!(
        decide_action(V, false, true, 200, parsed.clone()),
        State::TransitionToPaused { version_guard: V }
    );
    assert_eq!(
        decide_action(V, true, true, 503, parsed.clone()),
        State::TransitionToUnavailable { version_guard: V }
    );
    assert_eq!(
        decide_action(V, true, false, 0, parsed.clone()),
        State::TransitionToUnavailable { version_guard: V }
    );
    assert_eq!(
        decide_action(V, true, true, 400, parsed.clone()),
        State::TransitionToFailed {
            version_guard: V,
            error: parsed
        }
    );
}
