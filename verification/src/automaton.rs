//! The deployment automaton: one reconciliation loop per pipeline.
//!
//! Each run cycle reads the descriptor, decides one [`State`] transition
//! from the observed and desired status, applies its side effect through the
//! executor or the pipeline's HTTP control surface, and persists the
//! transition with a version-guarded store write. A stale guard is swallowed
//! only on the `Shutdown` to `Provisioning` boundary (the user has re-edited
//! the pipeline; the next cycle derives a fresh deployment configuration)
//! and is fatal anywhere else, as is any other store failure.

use vstd::prelude::*;
use vstd::string::StringExecFns;
use crate::clock::now_millis;
use crate::descriptor::{
    was_provisioned, ExtendedPipelineDescr, ExtendedPipelineDescrMonitoring,
    ExtendedPipelineDescrRunner,
};
use crate::error::{DBError, ErrorResponse};
use crate::executor::PipelineExecutor;
use crate::http::PipelineHttpClient;
use crate::json::{
    json_as_bool, json_as_str, json_bool_of, json_field, json_from_map, json_from_string,
    json_get, json_is_obj, json_is_object, json_map_insert, json_map_new, json_str_of,
};
use crate::storage::{
    transitioned, user_step, user_step_opt, with_failed, with_initializing, with_provisioning,
    with_shutdown, Storage,
};
use crate::strutil::str_matches;
use crate::strutil::u128_to_string;
use crate::transition::{
    decide_action, decide_awaiting, decide_early_start_transition, decide_initializing,
    decide_probe, error_envelope_matches, spec_compilation_error_text, spec_decide_action,
    spec_decide_awaiting, spec_decide_initializing, spec_decide_probe, spec_decide_shutdown,
    stats_classification_matches, State, StatusCheckResult,
};
use crate::types::{PipelineDesiredStatus, PipelineId, PipelineStatus, TenantId};
use vstd::pervasive::unreached;

verus! {

/// The frequency of polling the pipeline during normal operation, when its
/// state is not expected to change, in milliseconds.
pub const DEFAULT_PIPELINE_POLL_PERIOD_MILLIS: u64 = 2_500;

/// Maximum time to wait for the pipeline to initialize its connectors and
/// web server, in milliseconds.
pub const INITIALIZATION_TIMEOUT_MILLIS: u64 = 60_000;

/// How often to poll the pipeline during initialization, in milliseconds.
pub const INITIALIZATION_POLL_PERIOD_MILLIS: u64 = 250;

/// Hard cap for one HTTP request from the automaton to its pipeline, in
/// milliseconds; transports implementing the HTTP client honour it.
pub const PIPELINE_AUTOMATA_HTTP_REQUEST_TIMEOUT_MILLIS: u64 = 5_000;

/// The invalid-response error for a body that is not a recognized error
/// envelope, naming the HTTP status it came with.
fn invalid_envelope_error(pipeline_id: PipelineId, status: u16) -> (r: ErrorResponse)
    ensures
        (r matches ErrorResponse::InvalidPipelineResponse { pipeline_id: p, .. } && p
            == pipeline_id),
{
    let mut error = "response body is not a recognized error envelope; status code: ".to_owned();
    let digits = u128_to_string(status as u128);
    error.append(digits.as_str());
    ErrorResponse::InvalidPipelineResponse { pipeline_id, error }
}

/// Parses the canonical error envelope out of a JSON body — an object with
/// a string `message` and a string `error_code`, reproduced exactly — and
/// wraps any other body as an invalid-response error for the pipeline.
pub fn error_response_from_json(
    pipeline_id: PipelineId,
    status: u16,
    json: &serde_json::Value,
) -> (r: ErrorResponse)
    ensures
        error_envelope_matches(pipeline_id, *json, r),
{
    let message = json_get(json, "message");
    let error_code = json_get(json, "error_code");
    match (message, error_code) {
        (Some(m), Some(c)) => match (json_as_str(m), json_as_str(c)) {
            (Some(ms), Some(cs)) => ErrorResponse::PipelineEndpointError {
                error_code: cs.to_owned(),
                message: ms.to_owned(),
            },
            _ => invalid_envelope_error(pipeline_id, status),
        },
        _ => invalid_envelope_error(pipeline_id, status),
    }
}

/// Classifies one answer of the `/stats` endpoint, exactly as
/// [`stats_classification_matches`] describes: a 200 whose
/// `global_metrics.state` is `"Paused"` or `"Running"` names the state, any
/// other 200 body is an invalid response, a 503 is a not-yet-ready web
/// server, and any other status carries the parsed error envelope.
pub fn classify_stats_response(
    pipeline_id: PipelineId,
    status: u16,
    body: &serde_json::Value,
) -> (r: StatusCheckResult)
    ensures
        stats_classification_matches(pipeline_id, status, *body, r),
{
    if status == 200 {
        let state_str: Option<&str> = match json_get(body, "global_metrics") {
            Some(global_metrics) => match json_get(global_metrics, "state") {
                Some(state) => json_as_str(state),
                None => None,
            },
            None => None,
        };
        match state_str {
            Some(s) => {
                if str_matches(s, "Paused") {
                    StatusCheckResult::Paused
                } else if str_matches(s, "Running") {
                    StatusCheckResult::Running
                } else {
                    // Notably: "Terminated".
                    let mut error =
                        "pipeline is not in Running or Paused state, but in the state: "
                        .to_owned();
                    error.append(s);
                    StatusCheckResult::Error(ErrorResponse::InvalidPipelineResponse {
                        pipeline_id,
                        error,
                    })
                }
            },
            None => StatusCheckResult::Error(ErrorResponse::InvalidPipelineResponse {
                pipeline_id,
                error: "missing or non-string global_metrics.state field in stats response"
                    .to_owned(),
            }),
        }
    } else if status == 503 {
        // Pipeline web server is up but says it is not yet ready.
        StatusCheckResult::Unavailable
    } else {
        // The web server answered, but the pipeline itself failed.
        StatusCheckResult::Error(error_response_from_json(pipeline_id, status, body))
    }
}

/// Checks the pipeline's status by polling its `/stats` endpoint at the
/// deployment location: the answer is classified by
/// [`classify_stats_response`], and an unreachable pipeline is
/// `Unavailable`.
pub fn check_pipeline_status<H: PipelineHttpClient>(
    http: &mut H,
    pipeline_id: PipelineId,
    deployment_location: &String,
) -> (r: StatusCheckResult)
    ensures
        r is Unavailable || exists|status: u16, body: serde_json::Value|
            #[trigger] stats_classification_matches(pipeline_id, status, body, r),
{
    match http.request_json(pipeline_id, deployment_location, "stats") {
        Ok((status, body)) => {
            let r = classify_stats_response(pipeline_id, status, &body);
            let ghost body_snapshot = body;
            proof {
                assert(stats_classification_matches(pipeline_id, status, body_snapshot, r));
            }
            r
        },
        Err(_) => StatusCheckResult::Unavailable,
    }
}

/// What the `Shutdown` branch may emit when the program is not deployable
/// yet: a compilation failure becomes `Failed` with the compiler's message;
/// everything else (still compiling, or compiled under another platform and
/// sent back for recompilation) waits.
pub open spec fn early_start_emit(m: ExtendedPipelineDescrMonitoring, t: State) -> bool {
    if m.program_status.spec_is_compilation_error() {
        t matches State::TransitionToFailed { version_guard, error } && (version_guard == m.version
            && (error matches ErrorResponse::StartFailedDueToFailedCompilation { compiler_error }
                && compiler_error@ == spec_compilation_error_text(m.program_status)))
    } else {
        t is Unchanged
    }
}

/// Whether this error names an invalid or missing persisted artifact found
/// while deriving the deployment configuration.
pub open spec fn artifact_error(e: ErrorResponse) -> bool {
    e is InvalidRuntimeConfig || e is MissingProgramInfo || e is InvalidProgramInfo
}

/// A successful ready phase on valid artifacts: the cycle moves to
/// `Provisioning` under the observed version, with a configuration holding
/// the runtime configuration under `global`, the record's connector lists,
/// and storage settings exactly when the storage flag asks for them.
pub open spec fn ready_success_matches(
    d: ExtendedPipelineDescr,
    storage: bool,
    program_info: serde_json::Value,
    r: State,
) -> bool {
    match r {
        State::TransitionToProvisioning { version_guard, deployment_config } => {
            &&& version_guard == d.monitoring.version
            &&& spec_valid_deployment_config(deployment_config)
            &&& json_field(deployment_config, "global"@) == Some(d.runtime_config)
            &&& json_field(deployment_config, "inputs"@) == json_field(
                program_info,
                "input_connectors"@,
            )
            &&& json_field(deployment_config, "outputs"@) == json_field(
                program_info,
                "output_connectors"@,
            )
            &&& (json_field(deployment_config, "storage_config"@) is Some <==> storage)
        },
        _ => false,
    }
}

/// What the `Shutdown` branch may emit when the program is compiled at the
/// controller's platform version: `Provisioning` with a freshly derived
/// deployment configuration, or `Failed` on an invalid persisted artifact.
pub open spec fn ready_emit(version: crate::Version, t: State) -> bool {
    ||| (t matches State::TransitionToProvisioning { version_guard, .. } && version_guard
        == version)
    ||| (t matches State::TransitionToFailed { version_guard, error } && (version_guard == version
        && artifact_error(error)))
}

/// What the first `Provisioning` phase (before `provision` has been called)
/// may emit: an exact platform-mismatch failure, a failure over a missing or
/// invalid artifact or a failed `provision` call, or nothing when the call
/// went out successfully.
pub open spec fn provision_emit(plat: Seq<char>, d: ExtendedPipelineDescr, t: State) -> bool {
    let m = d.monitoring;
    if m.platform_version@ != plat {
        t matches State::TransitionToFailed { version_guard, error } && (version_guard == m.version
            && (error matches ErrorResponse::CannotProvisionDifferentPlatformVersion {
                pipeline_platform_version,
                runner_platform_version,
            } && pipeline_platform_version@ == m.platform_version@ && runner_platform_version@
                == plat))
    } else {
        &&& (t is Unchanged || (t matches State::TransitionToFailed { version_guard, .. }
            && version_guard == m.version))
        &&& (d.deployment_config is None ==> (t matches State::TransitionToFailed {
            version_guard,
            error,
        } && (version_guard == m.version && error is MissingDeploymentConfig)))
    }
}

/// What an `Initializing` cycle may emit, for some probe outcome.
pub open spec fn initializing_emit(m: ExtendedPipelineDescrMonitoring, now: i64, t: State) -> bool {
    exists|scr: StatusCheckResult|
        t == #[trigger] spec_decide_initializing(
            m.version,
            m.id,
            scr,
            m.deployment_status_since,
            INITIALIZATION_TIMEOUT_MILLIS,
            now,
        )
}

/// What a reconciliation probe may emit, for some probe outcome.
pub open spec fn probe_emit(m: ExtendedPipelineDescrMonitoring, t: State) -> bool {
    exists|scr: StatusCheckResult| t == #[trigger] spec_decide_probe(
        m.deployment_status,
        m.version,
        scr,
    )
}

/// What a start or pause action may emit, for some HTTP answer.
pub open spec fn action_emit(version: crate::Version, is_start: bool, t: State) -> bool {
    exists|reachable: bool, status: u16, parsed: ErrorResponse|
        t == #[trigger] spec_decide_action(version, is_start, reachable, status, parsed)
}

/// What a `ShuttingDown` cycle may emit, for some executor answer.
pub open spec fn shutting_down_emit(version: crate::Version, t: State) -> bool {
    exists|res: Result<(), ErrorResponse>| t == #[trigger] spec_decide_shutdown(version, res)
}

/// The transition table of one run cycle, as a relation: with the complete
/// descriptor `d` the cycle observed, may the cycle decide transition `t`?
/// The relation abstracts over everything outside the library's control:
/// what the executor answered, what the pipeline answered, and the clock.
pub open spec fn may_emit(
    d: ExtendedPipelineDescr,
    plat: Seq<char>,
    provision_called: bool,
    provisioning_timeout_millis: u64,
    now_millis: i64,
    t: State,
) -> bool {
    let m = d.monitoring;
    match m.deployment_status {
        PipelineStatus::Shutdown => match m.deployment_desired_status {
            PipelineDesiredStatus::Shutdown => t is Unchanged,
            _ => if m.program_status.spec_is_success() && m.platform_version@ == plat {
                ready_emit(m.version, t)
            } else {
                early_start_emit(m, t)
            },
        },
        PipelineStatus::Provisioning => match m.deployment_desired_status {
            PipelineDesiredStatus::Shutdown => t == (State::TransitionToShuttingDown {
                version_guard: m.version,
            }),
            _ => if !provision_called {
                provision_emit(plat, d, t)
            } else {
                exists|res: Result<Option<String>, ErrorResponse>|
                    t == #[trigger] spec_decide_awaiting(
                        m.version,
                        m.deployment_status_since,
                        provisioning_timeout_millis,
                        now_millis,
                        res,
                    )
            },
        },
        PipelineStatus::Initializing => match m.deployment_desired_status {
            PipelineDesiredStatus::Shutdown => t == (State::TransitionToShuttingDown {
                version_guard: m.version,
            }),
            _ => initializing_emit(m, now_millis, t),
        },
        PipelineStatus::Paused => match m.deployment_desired_status {
            PipelineDesiredStatus::Shutdown => t == (State::TransitionToShuttingDown {
                version_guard: m.version,
            }),
            PipelineDesiredStatus::Paused => probe_emit(m, t),
            PipelineDesiredStatus::Running => action_emit(m.version, true, t),
        },
        PipelineStatus::Running => match m.deployment_desired_status {
            PipelineDesiredStatus::Shutdown => t == (State::TransitionToShuttingDown {
                version_guard: m.version,
            }),
            PipelineDesiredStatus::Paused => action_emit(m.version, false, t),
            PipelineDesiredStatus::Running => probe_emit(m, t),
        },
        PipelineStatus::Unavailable => match m.deployment_desired_status {
            PipelineDesiredStatus::Shutdown => t == (State::TransitionToShuttingDown {
                version_guard: m.version,
            }),
            _ => probe_emit(m, t),
        },
        PipelineStatus::Failed => match m.deployment_desired_status {
            PipelineDesiredStatus::Shutdown => t == (State::TransitionToShuttingDown {
                version_guard: m.version,
            }),
            _ => t is Unchanged,
        },
        PipelineStatus::ShuttingDown => shutting_down_emit(m.version, t),
    }
}

/// The descriptor a transition writes, applied to the state `d` the guarded
/// write found.
pub open spec fn spec_apply_transition(
    d: ExtendedPipelineDescr,
    t: State,
    now_millis: i64,
) -> ExtendedPipelineDescr {
    match t {
        State::TransitionToProvisioning { deployment_config, .. } => with_provisioning(
            d,
            deployment_config,
            now_millis,
        ),
        State::TransitionToInitializing { deployment_location, .. } => with_initializing(
            d,
            deployment_location,
            now_millis,
        ),
        State::TransitionToPaused { .. } => transitioned(d, PipelineStatus::Paused, now_millis),
        State::TransitionToRunning { .. } => transitioned(d, PipelineStatus::Running, now_millis),
        State::TransitionToUnavailable { .. } => transitioned(
            d,
            PipelineStatus::Unavailable,
            now_millis,
        ),
        State::TransitionToFailed { error, .. } => with_failed(d, error, now_millis),
        State::TransitionToShuttingDown { .. } => transitioned(
            d,
            PipelineStatus::ShuttingDown,
            now_millis,
        ),
        State::TransitionToShutdown { .. } => with_shutdown(d, now_millis),
        State::Unchanged => d,
    }
}

/// A guarded write of transition `t` succeeded against observed descriptor
/// `d`: some state that `d` could evolve into by user activity alone had
/// the guarded version, and the store now holds the transition applied to
/// it.
pub open spec fn guarded_applied(
    d: ExtendedPipelineDescr,
    t: State,
    now_millis: i64,
    post: Option<ExtendedPipelineDescr>,
) -> bool {
    exists|d2: ExtendedPipelineDescr|
        {
            &&& #[trigger] user_step(d, d2)
            &&& d2.monitoring.version == t.spec_guard()
            &&& post == Some(spec_apply_transition(d2, t, now_millis))
        }
}

/// How the store may end up after a cycle persists transition `t` decided
/// on observed descriptor `d`. A landed write applied the transition; a
/// cycle that decided nothing writes nothing, a write to `Provisioning` may
/// be swallowed by the stale-version retry, and every other write lands or
/// the cycle fails fatally.
pub open spec fn write_outcome(
    d: ExtendedPipelineDescr,
    t: State,
    now_millis: i64,
    post: Option<ExtendedPipelineDescr>,
    landed: bool,
) -> bool {
    if landed {
        &&& !(t is Unchanged)
        &&& guarded_applied(d, t, now_millis, post)
    } else {
        &&& (t is Unchanged || t is TransitionToProvisioning)
        &&& user_step_opt(Some(d), post)
    }
}

/// The wait before the next cycle, per the status the finished cycle left
/// the pipeline in.
pub open spec fn spec_poll_period(
    status: PipelineStatus,
    shutdown_poll_period_millis: u64,
    provisioning_poll_period_millis: u64,
) -> u64 {
    match status {
        PipelineStatus::Shutdown => shutdown_poll_period_millis,
        PipelineStatus::Provisioning => provisioning_poll_period_millis,
        PipelineStatus::Initializing => INITIALIZATION_POLL_PERIOD_MILLIS,
        PipelineStatus::ShuttingDown => shutdown_poll_period_millis,
        _ => DEFAULT_PIPELINE_POLL_PERIOD_MILLIS,
    }
}

/// Everything one run cycle may do to the store: on success, some observed
/// descriptor (reachable from the previous observation by user activity
/// alone) led to a transition the table allows, whose write went as
/// [`write_outcome`] describes, and the returned wait matches the status
/// the cycle left the pipeline in; on a fatal error, no automaton-made
/// change is observed at all.
pub open spec fn cycle_outcome(
    pre: Option<ExtendedPipelineDescr>,
    post: Option<ExtendedPipelineDescr>,
    plat: Seq<char>,
    provision_called: bool,
    provisioning_timeout_millis: u64,
    shutdown_poll_period_millis: u64,
    provisioning_poll_period_millis: u64,
    r: Result<u64, DBError>,
) -> bool {
    match r {
        Ok(poll) => exists|d: ExtendedPipelineDescr, t: State, now: i64, landed: bool|
            #![trigger may_emit(
                d,
                plat,
                provision_called,
                provisioning_timeout_millis,
                now,
                t,
            ), write_outcome(d, t, now, post, landed)]
            {
                &&& user_step_opt(pre, Some(d))
                &&& may_emit(
                    d,
                    plat,
                    provision_called,
                    provisioning_timeout_millis,
                    now,
                    t,
                )
                &&& write_outcome(d, t, now, post, landed)
                &&& poll == spec_poll_period(
                    if landed {
                        t.spec_target()->Some_0
                    } else {
                        d.monitoring.deployment_status
                    },
                    shutdown_poll_period_millis,
                    provisioning_poll_period_millis,
                )
            },
        Err(_) => user_step_opt(pre, post),
    }
}

/// User steps compose: two rounds of user activity are one.
pub proof fn lemma_user_step_trans(
    a: ExtendedPipelineDescr,
    b: ExtendedPipelineDescr,
    c: ExtendedPipelineDescr,
)
    requires
        user_step(a, b),
        user_step(b, c),
    ensures
        user_step(a, c),
{
}

/// [`lemma_user_step_trans`] lifted to possibly-deleted descriptors.
pub proof fn lemma_user_step_opt_trans(
    a: Option<ExtendedPipelineDescr>,
    b: Option<ExtendedPipelineDescr>,
    c: Option<ExtendedPipelineDescr>,
)
    requires
        user_step_opt(a, b),
        user_step_opt(b, c),
    ensures
        user_step_opt(a, c),
{
}

/// Composes a successful guarded write with the user activity absorbed
/// since the cycle's read into [`guarded_applied`].
proof fn lemma_write_ok(
    d: ExtendedPipelineDescr,
    mid: Option<ExtendedPipelineDescr>,
    post: Option<ExtendedPipelineDescr>,
    t: State,
    now_millis: i64,
    version_guard: crate::Version,
    apply: spec_fn(ExtendedPipelineDescr) -> ExtendedPipelineDescr,
)
    requires
        user_step_opt(Some(d), mid),
        crate::storage::guarded_write_post(mid, post, Ok(()), version_guard, apply),
        version_guard == t.spec_guard(),
        forall|x: ExtendedPipelineDescr| #[trigger] apply(x) == spec_apply_transition(
            x,
            t,
            now_millis,
        ),
    ensures
        guarded_applied(d, t, now_millis, post),
{
    let d2 = choose|d2: ExtendedPipelineDescr|
        {
            &&& #[trigger] user_step_opt(mid, Some(d2))
            &&& d2.monitoring.version == version_guard
            &&& post == Some(apply(d2))
        };
    lemma_user_step_opt_trans(Some(d), mid, Some(d2));
    assert(user_step(d, d2));
    assert(post == Some(spec_apply_transition(d2, t, now_millis)));
}

/// The storage flag a runtime configuration carries: off when the field is
/// absent, and undefined (`None`) when the configuration is not an object
/// or the field is not a boolean — the invalid-runtime-config cases. The
/// library models of the runtime configuration only what deployment
/// decisions read; the rest of the user's JSON is carried through opaquely.
pub open spec fn spec_storage_flag(v: serde_json::Value) -> Option<bool> {
    if !json_is_obj(v) {
        None
    } else {
        match json_field(v, "storage"@) {
            None => Some(false),
            Some(flag) => json_bool_of(flag),
        }
    }
}

/// Whether a compiler output record is usable for deployment: an object
/// carrying both connector lists.
pub open spec fn spec_valid_program_info(v: serde_json::Value) -> bool {
    &&& json_is_obj(v)
    &&& json_field(v, "input_connectors"@) is Some
    &&& json_field(v, "output_connectors"@) is Some
}

/// Whether a frozen deployment configuration still has the shape
/// [`generate_pipeline_config`] writes: an object carrying `global`.
pub open spec fn spec_valid_deployment_config(v: serde_json::Value) -> bool {
    &&& json_is_obj(v)
    &&& json_field(v, "global"@) is Some
}

/// Checks that the user-supplied runtime configuration is a JSON object and
/// reads its `storage` flag (absent means off).
fn parse_storage_flag(runtime_config: &serde_json::Value) -> (r: Result<bool, String>)
    ensures
        (match r {
            Ok(b) => spec_storage_flag(*runtime_config) == Some(b),
            Err(_) => spec_storage_flag(*runtime_config) is None,
        }),
{
    if !json_is_object(runtime_config) {
        return Err("runtime configuration is not a JSON object".to_owned());
    }
    match json_get(runtime_config, "storage") {
        None => Ok(false),
        Some(flag) => match json_as_bool(flag) {
            Some(b) => Ok(b),
            None => Err("storage flag of the runtime configuration is not a boolean".to_owned()),
        },
    }
}

/// Checks that the compiler's output record carries the connector lists and
/// copies them out.
fn parse_connector_lists(program_info: &serde_json::Value) -> (r: Result<
    (serde_json::Value, serde_json::Value),
    String,
>)
    ensures
        (match r {
            Ok(lists) => {
                &&& spec_valid_program_info(*program_info)
                &&& json_field(*program_info, "input_connectors"@) == Some(lists.0)
                &&& json_field(*program_info, "output_connectors"@) == Some(lists.1)
            },
            Err(_) => !spec_valid_program_info(*program_info),
        }),
{
    if !json_is_object(program_info) {
        return Err("program info is not a JSON object".to_owned());
    }
    let inputs = match json_get(program_info, "input_connectors") {
        Some(v) => v.clone(),
        None => {
            return Err("program info lacks the input_connectors field".to_owned());
        },
    };
    let outputs = match json_get(program_info, "output_connectors") {
        Some(v) => v.clone(),
        None => {
            return Err("program info lacks the output_connectors field".to_owned());
        },
    };
    Ok((inputs, outputs))
}

/// Checks that a frozen deployment configuration read back from the store
/// still has the shape [`generate_pipeline_config`] writes.
fn validate_deployment_config(deployment_config: &serde_json::Value) -> (r: Result<(), String>)
    ensures
        r is Ok <==> spec_valid_deployment_config(*deployment_config),
{
    if !json_is_object(deployment_config) {
        return Err("deployment configuration is not a JSON object".to_owned());
    }
    if json_get(deployment_config, "global").is_none() {
        return Err("deployment configuration lacks the global field".to_owned());
    }
    Ok(())
}

/// Assembles the deployment configuration: the runtime configuration under
/// `global`, the connector lists, and the storage settings when storage was
/// asked for.
fn generate_pipeline_config(
    runtime_config: &serde_json::Value,
    inputs: serde_json::Value,
    outputs: serde_json::Value,
    storage_config: Option<crate::executor::StorageConfig>,
) -> (r: serde_json::Value)
    ensures
        spec_valid_deployment_config(r),
        json_field(r, "global"@) == Some(*runtime_config),
        json_field(r, "inputs"@) == Some(inputs),
        json_field(r, "outputs"@) == Some(outputs),
        (match storage_config {
            Some(sc) => json_field(r, "storage_config"@) matches Some(scv) && (json_is_obj(scv)
                && (json_field(scv, "path"@) matches Some(pv) && json_str_of(pv) == Some(
                sc.path@,
            ))),
            None => json_field(r, "storage_config"@) is None,
        }),
{
    proof {
        reveal_strlit("global");
        reveal_strlit("inputs");
        reveal_strlit("outputs");
        reveal_strlit("storage_config");
        reveal_strlit("path");
        assert("global"@[0] != "inputs"@[0]);
        assert("global"@[0] != "outputs"@[0]);
        assert("global"@[0] != "storage_config"@[0]);
        assert("inputs"@[0] != "outputs"@[0]);
        assert("inputs"@[0] != "storage_config"@[0]);
        assert("outputs"@[0] != "storage_config"@[0]);
    }
    let mut m = json_map_new();
    json_map_insert(&mut m, String::from_str("global"), runtime_config.clone());
    json_map_insert(&mut m, String::from_str("inputs"), inputs);
    json_map_insert(&mut m, String::from_str("outputs"), outputs);
    match storage_config {
        Some(sc) => {
            let mut sm = json_map_new();
            json_map_insert(&mut sm, String::from_str("path"), json_from_string(sc.path));
            json_map_insert(&mut m, String::from_str("storage_config"), json_from_map(sm));
        },
        None => {},
    }
    json_from_map(m)
}

/// Pipeline automaton: monitors the runtime state of a single pipeline and
/// continually reconciles the observed with the desired state.
pub struct PipelineAutomaton<T: PipelineExecutor> {
    /// Platform version of this controller binary.
    pub platform_version: String,
    pub pipeline_id: PipelineId,
    pub tenant_id: TenantId,
    /// The exclusively owned handle to this pipeline's runtime.
    pub pipeline_handle: T,
    /// Whether the first run cycle still has to be done; the executor's
    /// initialization is called on that cycle.
    pub first_run_cycle: bool,
    /// Whether `provision` has been called in the `Provisioning` stage.
    /// Not persisted: re-derived as false on controller restart.
    pub provision_called: bool,
    /// Maximum time to wait for the runtime resources to be provisioned.
    pub provisioning_timeout_millis: u64,
    /// How often to poll during provisioning.
    pub provisioning_poll_period_millis: u64,
    /// How often to poll during shutting down.
    pub shutdown_poll_period_millis: u64,
}

impl<T: PipelineExecutor> PipelineAutomaton<T> {
    /// The configuration fields of the automaton, which no cycle changes.
    pub open spec fn same_config(a: &Self, b: &Self) -> bool {
        &&& b.platform_version == a.platform_version
        &&& b.pipeline_id == a.pipeline_id
        &&& b.tenant_id == a.tenant_id
        &&& b.provisioning_timeout_millis == a.provisioning_timeout_millis
        &&& b.provisioning_poll_period_millis == a.provisioning_poll_period_millis
        &&& b.shutdown_poll_period_millis == a.shutdown_poll_period_millis
    }

    /// Creates a new automaton for a given pipeline, ahead of its first run
    /// cycle.
    pub fn new(
        platform_version: &str,
        pipeline_id: PipelineId,
        tenant_id: TenantId,
        pipeline_handle: T,
        provisioning_timeout_millis: u64,
        provisioning_poll_period_millis: u64,
        shutdown_poll_period_millis: u64,
    ) -> (r: Self)
        ensures
            r.platform_version@ == platform_version@,
            r.pipeline_id == pipeline_id,
            r.tenant_id == tenant_id,
            r.first_run_cycle == true,
            r.provision_called == false,
            r.provisioning_timeout_millis == provisioning_timeout_millis,
            r.provisioning_poll_period_millis == provisioning_poll_period_millis,
            r.shutdown_poll_period_millis == shutdown_poll_period_millis,
    {
        PipelineAutomaton {
            platform_version: platform_version.to_owned(),
            pipeline_id,
            tenant_id,
            pipeline_handle,
            first_run_cycle: true,
            provision_called: false,
            provisioning_timeout_millis,
            provisioning_poll_period_millis,
            shutdown_poll_period_millis,
        }
    }

    /// Handles `Shutdown` with desired `Paused` or `Running` while the
    /// program is not yet deployable: a compilation failure fails the
    /// deployment attempt at once, and a program compiled under an outdated
    /// platform version is handed back to the compiler by resetting its
    /// status to `Pending` (the platform-upgrade path).
    pub fn transit_shutdown_to_paused_or_running_phase_early_start<S: Storage>(
        &self,
        db: &mut S,
        pipeline: &ExtendedPipelineDescrMonitoring,
    ) -> (r: Result<State, DBError>)
        requires
            !(pipeline.program_status.spec_is_success() && pipeline.platform_version@
                == self.platform_version@),
        ensures
            user_step_opt(old(db).pipeline(), final(db).pipeline()),
            (r matches Ok(t) ==> early_start_emit(*pipeline, t)),
            // A compilation failure needs no store or executor call, so
            // success is owed, the transition is the pinned failure, and the
            // store is untouched.
            (pipeline.program_status.spec_is_compilation_error() ==> r is Ok
                && final(db).pipeline() == old(db).pipeline()),
            // A program still being compiled likewise just waits.
            (!pipeline.program_status.spec_is_compilation_error()
                && !pipeline.program_status.spec_is_success() ==> (r == Ok::<State, DBError>(
                State::Unchanged,
            ) && final(db).pipeline() == old(db).pipeline())),
            // The platform-upgrade path: a program compiled under another
            // platform version goes back to the compiler.
            (r is Ok && pipeline.program_status.spec_is_success() ==> (final(db).pipeline()
                matches Some(dd) && dd.monitoring.program_status is Pending)),
    {
        // A program that errored during compilation immediately fails the
        // deployment attempt.
        if let Some(t) = decide_early_start_transition(&pipeline.program_status, pipeline.version) {
            return Ok(t);
        }
        // The controller cannot run a program compiled under an outdated
        // platform. It requests recompilation by resetting the program
        // status to `Pending`: ownership of the pipeline is the runner's
        // because the user asked for deployment, but bumping the platform
        // version is the compiler's job.
        if pipeline.program_status.is_success()
            && !crate::strutil::str_matches(
            pipeline.platform_version.as_str(),
            self.platform_version.as_str(),
        ) {
            match db.transit_program_status_to_pending(
                self.tenant_id,
                pipeline.id,
                pipeline.program_version,
            ) {
                Ok(()) => {},
                Err(e) => {
                    return Err(e);
                },
            }
        }
        Ok(State::Unchanged)
    }

    /// Handles `Shutdown` with desired `Paused` or `Running` once the
    /// program is compiled at the controller's platform version: derives the
    /// deployment configuration from the persisted artifacts, attaching
    /// storage settings when the runtime configuration asks for storage, and
    /// moves to `Provisioning`; an invalid or missing artifact fails the
    /// attempt instead.
    pub fn transit_shutdown_to_paused_or_running_phase_ready(
        &self,
        pipeline: &ExtendedPipelineDescr,
    ) -> (r: State)
        ensures
            ready_emit(pipeline.monitoring.version, r),
            // An undefined storage flag is an invalid runtime configuration.
            (spec_storage_flag(pipeline.runtime_config) is None ==> r.is_failure_with(
                pipeline.monitoring.version,
                (|e: ErrorResponse| e is InvalidRuntimeConfig),
            )),
            // The compiler's output record must be present ...
            (spec_storage_flag(pipeline.runtime_config) is Some && pipeline.program_info is None
                ==> r == (State::TransitionToFailed {
                version_guard: pipeline.monitoring.version,
                error: ErrorResponse::MissingProgramInfo,
            })),
            // ... and carry the connector lists.
            (spec_storage_flag(pipeline.runtime_config) is Some ==> (pipeline.program_info
                matches Some(pi) ==> (!spec_valid_program_info(pi) ==> r.is_failure_with(
                pipeline.monitoring.version,
                (|e: ErrorResponse| e is InvalidProgramInfo),
            )))),
            // On valid artifacts, success is owed: the cycle moves to
            // `Provisioning` with a configuration derived from exactly these
            // inputs, carrying storage settings when the flag asks for them.
            (spec_storage_flag(pipeline.runtime_config) matches Some(storage) ==> (
            pipeline.program_info matches Some(pi) ==> (spec_valid_program_info(pi)
                ==> ready_success_matches(*pipeline, storage, pi, r)))),
    {
        let version = pipeline.monitoring.version;
        let storage = match parse_storage_flag(&pipeline.runtime_config) {
            Ok(b) => b,
            Err(error) => {
                return State::TransitionToFailed {
                    version_guard: version,
                    error: ErrorResponse::InvalidRuntimeConfig { error },
                };
            },
        };
        let (inputs, outputs) = match &pipeline.program_info {
            None => {
                return State::TransitionToFailed {
                    version_guard: version,
                    error: ErrorResponse::MissingProgramInfo,
                };
            },
            Some(program_info) => match parse_connector_lists(program_info) {
                Ok(lists) => lists,
                Err(error) => {
                    return State::TransitionToFailed {
                        version_guard: version,
                        error: ErrorResponse::InvalidProgramInfo { error },
                    };
                },
            },
        };
        let storage_config = if storage {
            Some(self.pipeline_handle.generate_storage_config())
        } else {
            None
        };
        let deployment_config = generate_pipeline_config(
            &pipeline.runtime_config,
            inputs,
            outputs,
            storage_config,
        );
        State::TransitionToProvisioning { version_guard: version, deployment_config }
    }

    /// Starts provisioning by calling the executor's `provision` and
    /// remembering that it was called, so that the next cycles await its
    /// completion. The call is idempotent, so a controller restart (which
    /// resets `provision_called`) may simply call it again.
    pub fn transit_provisioning_to_paused_or_running_phase_call_provision(
        &mut self,
        pipeline: &ExtendedPipelineDescr,
    ) -> (r: State)
        requires
            !old(self).provision_called,
        ensures
            Self::same_config(old(self), final(self)),
            final(self).first_run_cycle == old(self).first_run_cycle,
            provision_emit(final(self).platform_version@, *pipeline, r),
            (r is Unchanged ==> final(self).provision_called),
            (!(r is Unchanged) ==> final(self).provision_called == old(self).provision_called),
            // With the platform matching, each missing or invalid artifact
            // yields its own failure; only the provision call itself is left
            // open (the executor decides it).
            (pipeline.monitoring.platform_version@ == old(self).platform_version@
                && pipeline.deployment_config is None ==> r == (State::TransitionToFailed {
                version_guard: pipeline.monitoring.version,
                error: ErrorResponse::MissingDeploymentConfig,
            })),
            (pipeline.monitoring.platform_version@ == old(self).platform_version@ ==> (
            pipeline.deployment_config matches Some(cfg) ==> (!spec_valid_deployment_config(cfg)
                ==> r.is_failure_with(
                pipeline.monitoring.version,
                (|e: ErrorResponse| e is InvalidDeploymentConfig),
            )))),
            (pipeline.monitoring.platform_version@ == old(self).platform_version@ ==> (
            pipeline.deployment_config matches Some(cfg) ==> (spec_valid_deployment_config(cfg)
                && pipeline.program_binary_url is None ==> r == (State::TransitionToFailed {
                version_guard: pipeline.monitoring.version,
                error: ErrorResponse::MissingProgramBinaryUrl,
            })))),
    {
        let version = pipeline.monitoring.version;
        // Only a pipeline of the controller's own platform version can be
        // provisioned; the descriptor may have been compiled under another
        // one if the controller restarted into an upgrade mid-deployment.
        if !str_matches(
            pipeline.monitoring.platform_version.as_str(),
            self.platform_version.as_str(),
        ) {
            return State::TransitionToFailed {
                version_guard: version,
                error: ErrorResponse::CannotProvisionDifferentPlatformVersion {
                    pipeline_platform_version: pipeline.monitoring.platform_version.clone(),
                    runner_platform_version: self.platform_version.clone(),
                },
            };
        }
        let deployment_config = match &pipeline.deployment_config {
            None => {
                return State::TransitionToFailed {
                    version_guard: version,
                    error: ErrorResponse::MissingDeploymentConfig,
                };
            },
            Some(deployment_config) => match validate_deployment_config(deployment_config) {
                Ok(()) => deployment_config,
                Err(error) => {
                    return State::TransitionToFailed {
                        version_guard: version,
                        error: ErrorResponse::InvalidDeploymentConfig { error },
                    };
                },
            },
        };
        let program_binary_url = match &pipeline.program_binary_url {
            None => {
                return State::TransitionToFailed {
                    version_guard: version,
                    error: ErrorResponse::MissingProgramBinaryUrl,
                };
            },
            Some(url) => url,
        };
        match self.pipeline_handle.provision(
            deployment_config,
            program_binary_url,
            pipeline.monitoring.program_version,
        ) {
            Ok(()) => {
                self.provision_called = true;
                State::Unchanged
            },
            Err(error) => State::TransitionToFailed { version_guard: version, error },
        }
    }

    /// Awaits the provisioning by polling the executor; a location moves on
    /// to `Initializing`, and exceeding the provisioning timeout fails the
    /// deployment.
    pub fn transit_provisioning_to_paused_or_running_phase_awaiting(
        &self,
        pipeline: &ExtendedPipelineDescrMonitoring,
        now_millis: i64,
    ) -> (r: State)
        requires
            self.provision_called,
        ensures
            exists|res: Result<Option<String>, ErrorResponse>|
                r == #[trigger] spec_decide_awaiting(
                    pipeline.version,
                    pipeline.deployment_status_since,
                    self.provisioning_timeout_millis,
                    now_millis,
                    res,
                ),
    {
        let res = self.pipeline_handle.is_provisioned();
        decide_awaiting(
            pipeline.version,
            pipeline.deployment_status_since,
            self.provisioning_timeout_millis,
            now_millis,
            res,
        )
    }

    /// Awaits the remote pipeline's initialization: checks the runtime,
    /// then probes `/stats` at the deployment location, failing on error or
    /// on the initialization timeout.
    pub fn transit_initializing_to_paused_or_running<H: PipelineHttpClient>(
        &mut self,
        http: &mut H,
        pipeline: &ExtendedPipelineDescrMonitoring,
        now_millis: i64,
    ) -> (r: State)
        ensures
            Self::same_config(old(self), final(self)),
            final(self).first_run_cycle == old(self).first_run_cycle,
            final(self).provision_called == old(self).provision_called,
            initializing_emit(*pipeline, now_millis, r),
            // Initializing without a location is a broken record: the cycle
            // can only fail, never wait or complete.
            (pipeline.deployment_location is None ==> (r matches State::TransitionToFailed {
                version_guard,
                ..
            } && version_guard == pipeline.version)),
    {
        let version = pipeline.version;
        if let Err(error) = self.pipeline_handle.check() {
            let r = State::TransitionToFailed { version_guard: version, error };
            proof {
                let ghost e = r->TransitionToFailed_error;
                assert(r == spec_decide_initializing(
                    pipeline.version,
                    pipeline.id,
                    StatusCheckResult::Error(e),
                    pipeline.deployment_status_since,
                    INITIALIZATION_TIMEOUT_MILLIS,
                    now_millis,
                ));
            }
            return r;
        }
        let deployment_location = match &pipeline.deployment_location {
            Some(loc) => loc,
            None => {
                let r = State::TransitionToFailed {
                    version_guard: version,
                    error: ErrorResponse::MissingDeploymentLocation,
                };
                proof {
                    assert(r == spec_decide_initializing(
                        pipeline.version,
                        pipeline.id,
                        StatusCheckResult::Error(ErrorResponse::MissingDeploymentLocation),
                        pipeline.deployment_status_since,
                        INITIALIZATION_TIMEOUT_MILLIS,
                        now_millis,
                    ));
                }
                return r;
            },
        };
        let scr = check_pipeline_status(http, pipeline.id, deployment_location);
        decide_initializing(
            version,
            pipeline.id,
            scr,
            pipeline.deployment_status_since,
            INITIALIZATION_TIMEOUT_MILLIS,
            now_millis,
        )
    }

    /// Asks the pipeline to move between paused and running by issuing
    /// `/start` (`is_start`) or `/pause`; the answer decides the transition.
    pub fn perform_action_initialized_pipeline<H: PipelineHttpClient>(
        &mut self,
        http: &mut H,
        pipeline: &ExtendedPipelineDescrMonitoring,
        is_start: bool,
    ) -> (r: State)
        ensures
            Self::same_config(old(self), final(self)),
            final(self).first_run_cycle == old(self).first_run_cycle,
            final(self).provision_called == old(self).provision_called,
            action_emit(pipeline.version, is_start, r),
            // A status past `Initializing` without a location is a broken
            // record: the action fails without being issued.
            (pipeline.deployment_location is None ==> r == (State::TransitionToFailed {
                version_guard: pipeline.version,
                error: ErrorResponse::MissingDeploymentLocation,
            })),
    {
        let version = pipeline.version;
        let deployment_location = match &pipeline.deployment_location {
            Some(loc) => loc,
            None => {
                let r = State::TransitionToFailed {
                    version_guard: version,
                    error: ErrorResponse::MissingDeploymentLocation,
                };
                proof {
                    assert(r == spec_decide_action(
                        version,
                        is_start,
                        true,
                        0,
                        ErrorResponse::MissingDeploymentLocation,
                    ));
                }
                return r;
            },
        };
        if let Err(error) = self.pipeline_handle.check() {
            let r = State::TransitionToFailed { version_guard: version, error };
            proof {
                let ghost e = r->TransitionToFailed_error;
                assert(r == spec_decide_action(version, is_start, true, 0, e));
            }
            return r;
        }
        let endpoint = if is_start {
            "start"
        } else {
            "pause"
        };
        match http.request_json(pipeline.id, deployment_location, endpoint) {
            Ok((status, body)) => {
                // The envelope is parsed up front; the decision only reads
                // it for an answer outside the 200 and 503 statuses.
                let parsed = error_response_from_json(pipeline.id, status, &body);
                decide_action(version, is_start, true, status, parsed)
            },
            Err(_) => {
                // Unreachable: the parsed-envelope argument is immaterial.
                decide_action(
                    version,
                    is_start,
                    false,
                    0,
                    ErrorResponse::MissingDeploymentLocation,
                )
            },
        }
    }

    /// Probes a pipeline past `Initializing` (`Paused`, `Running` or
    /// `Unavailable`) and reconciles the stored status with what the probe
    /// observed.
    pub fn probe_initialized_pipeline<H: PipelineHttpClient>(
        &mut self,
        http: &mut H,
        pipeline: &ExtendedPipelineDescrMonitoring,
    ) -> (r: State)
        ensures
            Self::same_config(old(self), final(self)),
            final(self).first_run_cycle == old(self).first_run_cycle,
            final(self).provision_called == old(self).provision_called,
            probe_emit(*pipeline, r),
            // A status past `Initializing` without a location is a broken
            // record: the cycle can only fail, never park or reconcile.
            (pipeline.deployment_location is None ==> (r matches State::TransitionToFailed {
                version_guard,
                ..
            } && version_guard == pipeline.version)),
    {
        let version = pipeline.version;
        if let Err(error) = self.pipeline_handle.check() {
            let r = State::TransitionToFailed { version_guard: version, error };
            proof {
                let ghost e = r->TransitionToFailed_error;
                assert(r == spec_decide_probe(
                    pipeline.deployment_status,
                    pipeline.version,
                    StatusCheckResult::Error(e),
                ));
            }
            return r;
        }
        let deployment_location = match &pipeline.deployment_location {
            Some(loc) => loc,
            None => {
                let r = State::TransitionToFailed {
                    version_guard: version,
                    error: ErrorResponse::MissingDeploymentLocation,
                };
                proof {
                    assert(r == spec_decide_probe(
                        pipeline.deployment_status,
                        pipeline.version,
                        StatusCheckResult::Error(ErrorResponse::MissingDeploymentLocation),
                    ));
                }
                return r;
            },
        };
        let scr = check_pipeline_status(http, pipeline.id, deployment_location);
        decide_probe(pipeline.deployment_status, version, scr)
    }

    /// Executes one run cycle: reads the descriptor (the complete view
    /// exactly when the upcoming transition could need it), initializes the
    /// executor on the first cycle, decides one transition from the observed
    /// and desired status, applies its side effect, persists it under the
    /// version observed at the read, and returns how long to wait before the
    /// next cycle. A stale version guard is swallowed only on the `Shutdown`
    /// to `Provisioning` boundary; any other store failure is fatal and, by
    /// [`cycle_outcome`], leaves no partial transition behind.
    #[verifier::rlimit(100)]
    pub fn do_run<S: Storage, H: PipelineHttpClient>(&mut self, db: &mut S, http: &mut H) -> (r:
        Result<u64, DBError>)
        ensures
            Self::same_config(old(self), final(self)),
            // The executor's initialization happens on the first successful
            // read and never again.
            (r is Ok ==> !final(self).first_run_cycle),
            (!old(self).first_run_cycle ==> !final(self).first_run_cycle),
            cycle_outcome(
                old(db).pipeline(),
                final(db).pipeline(),
                old(self).platform_version@,
                old(self).provision_called,
                old(self).provisioning_timeout_millis,
                old(self).shutdown_poll_period_millis,
                old(self).provisioning_poll_period_millis,
                r,
            ),
    {
        let ghost pre = db.pipeline();
        let ghost plat = self.platform_version@;
        let ghost pc0 = self.provision_called;
        // Depending on the upcoming transition, the store returns either the
        // smaller monitoring descriptor or the larger complete one.
        let runner = match db.get_pipeline_by_id_for_runner(
            self.tenant_id,
            self.pipeline_id,
            &self.platform_version,
            self.provision_called,
        ) {
            Ok(p) => p,
            Err(e) => {
                return Err(e);
            },
        };
        let ghost d = db.pipeline()->Some_0;
        let pipeline = runner.only_monitoring();
        proof {
            assert(*pipeline == d.monitoring);
        }
        // Executor initialization happens on the first run cycle only.
        if self.first_run_cycle {
            self.pipeline_handle.init(was_provisioned(pipeline.deployment_status));
            self.first_run_cycle = false;
        }
        let now = now_millis();
        // Determine the transition.
        let transition: State = match (
            pipeline.deployment_status,
            pipeline.deployment_desired_status,
        ) {
            (PipelineStatus::Shutdown, PipelineDesiredStatus::Shutdown) => State::Unchanged,
            (PipelineStatus::Shutdown, _) => {
                if pipeline.program_status.is_success() && str_matches(
                    pipeline.platform_version.as_str(),
                    self.platform_version.as_str(),
                ) {
                    match &runner {
                        ExtendedPipelineDescrRunner::Complete(complete) => {
                            let t = self.transit_shutdown_to_paused_or_running_phase_ready(
                                complete,
                            );
                            proof {
                                assert(may_emit(
                                    d,
                                    plat,
                                    pc0,
                                    self.provisioning_timeout_millis,
                                    now,
                                    t,
                                ));
                            }
                            t
                        },
                        ExtendedPipelineDescrRunner::Monitoring(_) => {
                            // The store's contract guarantees the complete
                            // view on this boundary.
                            proof {
                                assert(false);
                            }
                            unreached()
                        },
                    }
                } else {
                    let t = match self.transit_shutdown_to_paused_or_running_phase_early_start(
                        db,
                        pipeline,
                    ) {
                        Ok(t) => t,
                        Err(e) => {
                            proof {
                                lemma_user_step_opt_trans(pre, Some(d), db.pipeline());
                            }
                            return Err(e);
                        },
                    };
                    proof {
                        assert(may_emit(d, plat, pc0, self.provisioning_timeout_millis, now, t));
                    }
                    t
                }
            },
            (PipelineStatus::Provisioning, PipelineDesiredStatus::Shutdown) => {
                State::TransitionToShuttingDown { version_guard: pipeline.version }
            },
            (PipelineStatus::Provisioning, _) => {
                if !self.provision_called {
                    match &runner {
                        ExtendedPipelineDescrRunner::Complete(complete) => {
                            let t = self
                                .transit_provisioning_to_paused_or_running_phase_call_provision(
                                complete,
                            );
                            proof {
                                assert(may_emit(
                                    d,
                                    plat,
                                    pc0,
                                    self.provisioning_timeout_millis,
                                    now,
                                    t,
                                ));
                            }
                            t
                        },
                        ExtendedPipelineDescrRunner::Monitoring(_) => {
                            // The store's contract guarantees the complete
                            // view before `provision` has been called.
                            proof {
                                assert(false);
                            }
                            unreached()
                        },
                    }
                } else {
                    let t = self.transit_provisioning_to_paused_or_running_phase_awaiting(
                        pipeline,
                        now,
                    );
                    proof {
                        assert(may_emit(d, plat, pc0, self.provisioning_timeout_millis, now, t));
                    }
                    t
                }
            },
            (PipelineStatus::Initializing, PipelineDesiredStatus::Shutdown) => {
                State::TransitionToShuttingDown { version_guard: pipeline.version }
            },
            (PipelineStatus::Initializing, _) => {
                let t = self.transit_initializing_to_paused_or_running(http, pipeline, now);
                proof {
                    assert(may_emit(d, plat, pc0, self.provisioning_timeout_millis, now, t));
                }
                t
            },
            (PipelineStatus::Paused, PipelineDesiredStatus::Shutdown) => {
                State::TransitionToShuttingDown { version_guard: pipeline.version }
            },
            (PipelineStatus::Paused, PipelineDesiredStatus::Paused) => {
                let t = self.probe_initialized_pipeline(http, pipeline);
                proof {
                    assert(may_emit(d, plat, pc0, self.provisioning_timeout_millis, now, t));
                }
                t
            },
            (PipelineStatus::Paused, PipelineDesiredStatus::Running) => {
                let t = self.perform_action_initialized_pipeline(http, pipeline, true);
                proof {
                    assert(may_emit(d, plat, pc0, self.provisioning_timeout_millis, now, t));
                }
                t
            },
            (PipelineStatus::Running, PipelineDesiredStatus::Shutdown) => {
                State::TransitionToShuttingDown { version_guard: pipeline.version }
            },
            (PipelineStatus::Running, PipelineDesiredStatus::Paused) => {
                let t = self.perform_action_initialized_pipeline(http, pipeline, false);
                proof {
                    assert(may_emit(d, plat, pc0, self.provisioning_timeout_millis, now, t));
                }
                t
            },
            (PipelineStatus::Running, PipelineDesiredStatus::Running) => {
                let t = self.probe_initialized_pipeline(http, pipeline);
                proof {
                    assert(may_emit(d, plat, pc0, self.provisioning_timeout_millis, now, t));
                }
                t
            },
            (PipelineStatus::Unavailable, PipelineDesiredStatus::Shutdown) => {
                State::TransitionToShuttingDown { version_guard: pipeline.version }
            },
            (PipelineStatus::Unavailable, _) => {
                let t = self.probe_initialized_pipeline(http, pipeline);
                proof {
                    assert(may_emit(d, plat, pc0, self.provisioning_timeout_millis, now, t));
                }
                t
            },
            (PipelineStatus::Failed, PipelineDesiredStatus::Shutdown) => {
                State::TransitionToShuttingDown { version_guard: pipeline.version }
            },
            (PipelineStatus::Failed, _) => State::Unchanged,
            (PipelineStatus::ShuttingDown, _) => {
                let t = self.transit_shutting_down_to_shutdown(pipeline);
                proof {
                    assert(may_emit(d, plat, pc0, self.provisioning_timeout_millis, now, t));
                }
                t
            },
        };
        proof {
            assert(may_emit(d, plat, pc0, self.provisioning_timeout_millis, now, transition));
        }
        // Store the transition in the database, tracking the status the
        // pipeline is left in.
        let ghost t_snapshot = transition;
        let ghost mid = db.pipeline();
        let ghost mut landed: bool = true;
        let new_status: PipelineStatus = match transition {
            State::TransitionToProvisioning { version_guard, deployment_config } => {
                let ghost cfg = deployment_config;
                match db.transit_deployment_status_to_provisioning(
                    self.tenant_id,
                    pipeline.id,
                    version_guard,
                    deployment_config,
                    now,
                ) {
                    Ok(()) => {
                        proof {
                            lemma_write_ok(
                                d,
                                mid,
                                db.pipeline(),
                                t_snapshot,
                                now,
                                version_guard,
                                (|x: ExtendedPipelineDescr| with_provisioning(x, cfg, now)),
                            );
                        }
                        PipelineStatus::Provisioning
                    },
                    Err(DBError::OutdatedPipelineVersion { .. }) => {
                        // The user re-edited the pipeline between this
                        // cycle's read and write; retry next cycle, which
                        // derives a deployment configuration for the new
                        // version.
                        proof {
                            landed = false;
                            lemma_user_step_opt_trans(Some(d), mid, db.pipeline());
                        }
                        pipeline.deployment_status
                    },
                    Err(e) => {
                        proof {
                            lemma_user_step_opt_trans(Some(d), mid, db.pipeline());
                            lemma_user_step_opt_trans(pre, Some(d), db.pipeline());
                        }
                        return Err(e);
                    },
                }
            },
            State::TransitionToInitializing { version_guard, deployment_location } => {
                let ghost loc = deployment_location;
                match db.transit_deployment_status_to_initializing(
                    self.tenant_id,
                    pipeline.id,
                    version_guard,
                    deployment_location,
                    now,
                ) {
                    Ok(()) => {
                        proof {
                            lemma_write_ok(
                                d,
                                mid,
                                db.pipeline(),
                                t_snapshot,
                                now,
                                version_guard,
                                (|x: ExtendedPipelineDescr| with_initializing(x, loc, now)),
                            );
                        }
                        PipelineStatus::Initializing
                    },
                    Err(e) => {
                        proof {
                            lemma_user_step_opt_trans(Some(d), mid, db.pipeline());
                            lemma_user_step_opt_trans(pre, Some(d), db.pipeline());
                        }
                        return Err(e);
                    },
                }
            },
            State::TransitionToPaused { version_guard } => {
                match db.transit_deployment_status_to_paused(
                    self.tenant_id,
                    pipeline.id,
                    version_guard,
                    now,
                ) {
                    Ok(()) => {
                        proof {
                            lemma_write_ok(
                                d,
                                mid,
                                db.pipeline(),
                                t_snapshot,
                                now,
                                version_guard,
                                (|x: ExtendedPipelineDescr| transitioned(
                                    x,
                                    PipelineStatus::Paused,
                                    now,
                                )),
                            );
                        }
                        PipelineStatus::Paused
                    },
                    Err(e) => {
                        proof {
                            lemma_user_step_opt_trans(Some(d), mid, db.pipeline());
                            lemma_user_step_opt_trans(pre, Some(d), db.pipeline());
                        }
                        return Err(e);
                    },
                }
            },
            State::TransitionToRunning { version_guard } => {
                match db.transit_deployment_status_to_running(
                    self.tenant_id,
                    pipeline.id,
                    version_guard,
                    now,
                ) {
                    Ok(()) => {
                        proof {
                            lemma_write_ok(
                                d,
                                mid,
                                db.pipeline(),
                                t_snapshot,
                                now,
                                version_guard,
                                (|x: ExtendedPipelineDescr| transitioned(
                                    x,
                                    PipelineStatus::Running,
                                    now,
                                )),
                            );
                        }
                        PipelineStatus::Running
                    },
                    Err(e) => {
                        proof {
                            lemma_user_step_opt_trans(Some(d), mid, db.pipeline());
                            lemma_user_step_opt_trans(pre, Some(d), db.pipeline());
                        }
                        return Err(e);
                    },
                }
            },
            State::TransitionToUnavailable { version_guard } => {
                match db.transit_deployment_status_to_unavailable(
                    self.tenant_id,
                    pipeline.id,
                    version_guard,
                    now,
                ) {
                    Ok(()) => {
                        proof {
                            lemma_write_ok(
                                d,
                                mid,
                                db.pipeline(),
                                t_snapshot,
                                now,
                                version_guard,
                                (|x: ExtendedPipelineDescr| transitioned(
                                    x,
                                    PipelineStatus::Unavailable,
                                    now,
                                )),
                            );
                        }
                        PipelineStatus::Unavailable
                    },
                    Err(e) => {
                        proof {
                            lemma_user_step_opt_trans(Some(d), mid, db.pipeline());
                            lemma_user_step_opt_trans(pre, Some(d), db.pipeline());
                        }
                        return Err(e);
                    },
                }
            },
            State::TransitionToFailed { version_guard, error } => {
                let ghost err = error;
                match db.transit_deployment_status_to_failed(
                    self.tenant_id,
                    pipeline.id,
                    version_guard,
                    error,
                    now,
                ) {
                    Ok(()) => {
                        proof {
                            lemma_write_ok(
                                d,
                                mid,
                                db.pipeline(),
                                t_snapshot,
                                now,
                                version_guard,
                                (|x: ExtendedPipelineDescr| with_failed(x, err, now)),
                            );
                        }
                        PipelineStatus::Failed
                    },
                    Err(e) => {
                        proof {
                            lemma_user_step_opt_trans(Some(d), mid, db.pipeline());
                            lemma_user_step_opt_trans(pre, Some(d), db.pipeline());
                        }
                        return Err(e);
                    },
                }
            },
            State::TransitionToShuttingDown { version_guard } => {
                match db.transit_deployment_status_to_shutting_down(
                    self.tenant_id,
                    pipeline.id,
                    version_guard,
                    now,
                ) {
                    Ok(()) => {
                        proof {
                            lemma_write_ok(
                                d,
                                mid,
                                db.pipeline(),
                                t_snapshot,
                                now,
                                version_guard,
                                (|x: ExtendedPipelineDescr| transitioned(
                                    x,
                                    PipelineStatus::ShuttingDown,
                                    now,
                                )),
                            );
                        }
                        PipelineStatus::ShuttingDown
                    },
                    Err(e) => {
                        proof {
                            lemma_user_step_opt_trans(Some(d), mid, db.pipeline());
                            lemma_user_step_opt_trans(pre, Some(d), db.pipeline());
                        }
                        return Err(e);
                    },
                }
            },
            State::TransitionToShutdown { version_guard } => {
                match db.transit_deployment_status_to_shutdown(
                    self.tenant_id,
                    pipeline.id,
                    version_guard,
                    now,
                ) {
                    Ok(()) => {
                        proof {
                            lemma_write_ok(
                                d,
                                mid,
                                db.pipeline(),
                                t_snapshot,
                                now,
                                version_guard,
                                (|x: ExtendedPipelineDescr| with_shutdown(x, now)),
                            );
                        }
                        PipelineStatus::Shutdown
                    },
                    Err(e) => {
                        proof {
                            lemma_user_step_opt_trans(Some(d), mid, db.pipeline());
                            lemma_user_step_opt_trans(pre, Some(d), db.pipeline());
                        }
                        return Err(e);
                    },
                }
            },
            State::Unchanged => {
                proof {
                    landed = false;
                }
                pipeline.deployment_status
            },
        };
        // The wait before the next cycle follows from the status the
        // pipeline was left in.
        let poll_timeout_millis = match new_status {
            PipelineStatus::Shutdown => self.shutdown_poll_period_millis,
            PipelineStatus::Provisioning => self.provisioning_poll_period_millis,
            PipelineStatus::Initializing => INITIALIZATION_POLL_PERIOD_MILLIS,
            PipelineStatus::Paused => DEFAULT_PIPELINE_POLL_PERIOD_MILLIS,
            PipelineStatus::Running => DEFAULT_PIPELINE_POLL_PERIOD_MILLIS,
            PipelineStatus::Unavailable => DEFAULT_PIPELINE_POLL_PERIOD_MILLIS,
            PipelineStatus::ShuttingDown => self.shutdown_poll_period_millis,
            PipelineStatus::Failed => DEFAULT_PIPELINE_POLL_PERIOD_MILLIS,
        };
        proof {
            assert(write_outcome(d, t_snapshot, now, db.pipeline(), landed));
            assert(poll_timeout_millis == spec_poll_period(
                if landed {
                    t_snapshot.spec_target()->Some_0
                } else {
                    d.monitoring.deployment_status
                },
                old(self).shutdown_poll_period_millis,
                old(self).provisioning_poll_period_millis,
            ));
        }
        Ok(poll_timeout_millis)
    }

    /// Tears the runtime down. The executor must always be able to do this,
    /// whatever state the pipeline or its resources are in; on failure the
    /// teardown is simply retried next cycle.
    pub fn transit_shutting_down_to_shutdown(
        &mut self,
        pipeline: &ExtendedPipelineDescrMonitoring,
    ) -> (r: State)
        ensures
            Self::same_config(old(self), final(self)),
            final(self).first_run_cycle == old(self).first_run_cycle,
            shutting_down_emit(pipeline.version, r),
            (r matches State::TransitionToShutdown { .. } ==> !final(self).provision_called),
            (r is Unchanged ==> final(self).provision_called == old(self).provision_called),
    {
        match self.pipeline_handle.shutdown() {
            Ok(()) => {
                self.provision_called = false;
                let r = State::TransitionToShutdown { version_guard: pipeline.version };
                proof {
                    assert(r == spec_decide_shutdown(pipeline.version, Ok::<(), ErrorResponse>(())));
                }
                r
            },
            Err(e) => {
                let ghost err_snapshot = e;
                let r = State::Unchanged;
                proof {
                    assert(r == spec_decide_shutdown(
                        pipeline.version,
                        Err::<(), ErrorResponse>(err_snapshot),
                    ));
                }
                r
            },
        }
    }
}

} // verus!
