//! Proved properties of the deployment automaton.
//!
//! Each proof function here states a guarantee of the transition table
//! ([`may_emit`]), the pure decision functions, and the store's guarded
//! writes; together they pin down how the automaton behaves across cycles.

use vstd::prelude::*;
use crate::automaton::{may_emit, spec_apply_transition, INITIALIZATION_TIMEOUT_MILLIS};
use crate::descriptor::ExtendedPipelineDescr;
use crate::error::{DBError, ErrorResponse};
use crate::storage::{guarded_write_post, user_step, user_step_opt};
use crate::transition::{
    spec_decide_action, spec_decide_awaiting, spec_decide_initializing, spec_decide_probe,
    spec_decide_shutdown, State, StatusCheckResult,
};
use crate::types::{PipelineDesiredStatus, PipelineStatus};
use crate::Version;

verus! {

/// Failed stickiness: while the descriptor stands `Failed` and the user has
/// not asked for `Shutdown`, no cycle decides any transition at all.
pub proof fn law_failed_stickiness(
    d: ExtendedPipelineDescr,
    plat: Seq<char>,
    provision_called: bool,
    provisioning_timeout_millis: u64,
    now_millis: i64,
    t: State,
)
    requires
        d.monitoring.deployment_status is Failed,
        !(d.monitoring.deployment_desired_status is Shutdown),
        may_emit(d, plat, provision_called, provisioning_timeout_millis, now_millis, t),
    ensures
        t is Unchanged,
{
}

/// Shutdown dominance, first half: with desired `Shutdown`, one cycle from
/// any state leaves the persisted status `Shutdown` or `ShuttingDown`,
/// whatever the executor, the pipeline and concurrent user activity do.
pub proof fn law_shutdown_dominance_cycle(
    d: ExtendedPipelineDescr,
    d2: ExtendedPipelineDescr,
    plat: Seq<char>,
    provision_called: bool,
    provisioning_timeout_millis: u64,
    now_millis: i64,
    write_millis: i64,
    t: State,
)
    requires
        d.monitoring.deployment_desired_status is Shutdown,
        may_emit(d, plat, provision_called, provisioning_timeout_millis, now_millis, t),
        user_step(d, d2),
    ensures
        spec_apply_transition(d2, t, write_millis).monitoring.deployment_status is Shutdown
            || spec_apply_transition(d2, t, write_millis).monitoring.deployment_status
            is ShuttingDown,
{
    if d.monitoring.deployment_status is ShuttingDown {
        let res = choose|res: Result<(), ErrorResponse>|
            t == #[trigger] spec_decide_shutdown(d.monitoring.version, res);
        assert(t is Unchanged || t matches State::TransitionToShutdown { .. });
    }
}

/// Shutdown dominance, second half: from `ShuttingDown`, as soon as the
/// executor's teardown succeeds the cycle persists `Shutdown`. With the
/// first half: desired `Shutdown` drives the status to `Shutdown` within
/// two effective cycles, modulo the teardown eventually succeeding.
pub proof fn law_shutdown_teardown_success(d: ExtendedPipelineDescr, now_millis: i64)
    ensures
        spec_apply_transition(
            d,
            spec_decide_shutdown(d.monitoring.version, Ok(())),
            now_millis,
        ).monitoring.deployment_status is Shutdown,
{
}

/// Shutdown dominance, composed: with desired `Shutdown`, one cycle either
/// already leaves the pipeline `Shutdown`, or leaves it `ShuttingDown` and
/// the following cycle persists `Shutdown` as soon as the executor's
/// teardown succeeds — two effective cycles in all, modulo the teardown
/// eventually succeeding.
pub proof fn law_shutdown_dominance_bounded(
    d: ExtendedPipelineDescr,
    d2: ExtendedPipelineDescr,
    plat: Seq<char>,
    provision_called: bool,
    provisioning_timeout_millis: u64,
    now_millis: i64,
    write_millis: i64,
    second_write_millis: i64,
    t: State,
)
    requires
        d.monitoring.deployment_desired_status is Shutdown,
        may_emit(d, plat, provision_called, provisioning_timeout_millis, now_millis, t),
        user_step(d, d2),
    ensures
        ({
            let d_next = spec_apply_transition(d2, t, write_millis);
            ||| d_next.monitoring.deployment_status is Shutdown
            ||| (d_next.monitoring.deployment_status is ShuttingDown && spec_apply_transition(
                d_next,
                spec_decide_shutdown(d_next.monitoring.version, Ok(())),
                second_write_millis,
            ).monitoring.deployment_status is Shutdown)
        }),
{
    law_shutdown_dominance_cycle(
        d,
        d2,
        plat,
        provision_called,
        provisioning_timeout_millis,
        now_millis,
        write_millis,
        t,
    );
}

/// No ghost transitions: a persisted transition always stamps
/// `deployment_status_since` with the write, and a cycle that decides no
/// transition writes nothing at all. Every deployment-status change the
/// automaton can make therefore carries a fresh timestamp.
pub proof fn law_no_ghost_transitions(d: ExtendedPipelineDescr, t: State, now_millis: i64)
    ensures
        (t is Unchanged ==> spec_apply_transition(d, t, now_millis) == d),
        (!(t is Unchanged) ==> spec_apply_transition(d, t, now_millis).monitoring
            .deployment_status_since == now_millis),
        (spec_apply_transition(d, t, now_millis).monitoring.deployment_status
            != d.monitoring.deployment_status ==> spec_apply_transition(
            d,
            t,
            now_millis,
        ).monitoring.deployment_status_since == now_millis),
{
}

/// Version-guard correctness, store side: when every state the observed
/// descriptor can evolve into by user activity has moved past the guarded
/// version, a guarded write cannot succeed, and nothing but user activity
/// is observed. Together with [`crate::automaton::cycle_outcome`] — whose
/// error case likewise shows only user activity — a concurrent version bump
/// between a cycle's read and write leaves no externally observed automaton
/// transition, except the tolerated `Shutdown` to `Provisioning` retry.
pub proof fn law_version_guard(
    pre: Option<ExtendedPipelineDescr>,
    post: Option<ExtendedPipelineDescr>,
    r: Result<(), DBError>,
    version_guard: Version,
    apply: spec_fn(ExtendedPipelineDescr) -> ExtendedPipelineDescr,
)
    requires
        guarded_write_post(pre, post, r, version_guard, apply),
        forall|d: ExtendedPipelineDescr| #[trigger]
            user_step_opt(pre, Some(d)) ==> d.monitoring.version != version_guard,
    ensures
        r is Err,
        user_step_opt(pre, post),
{
}

/// Idempotent shutdown: the teardown cycle may run against any state; it
/// only ever completes to `Shutdown` or retries, and completing corrupts no
/// persisted field beyond the deployment status, its timestamp and the
/// cleared location.
pub proof fn law_idempotent_shutdown(
    version: Version,
    res: Result<(), ErrorResponse>,
    d: ExtendedPipelineDescr,
    now_millis: i64,
)
    ensures
        ({
            let t = spec_decide_shutdown(version, res);
            let d2 = spec_apply_transition(d, t, now_millis);
            &&& (t is Unchanged || t matches State::TransitionToShutdown { .. })
            &&& d2.monitoring.version == d.monitoring.version
            &&& d2.monitoring.name == d.monitoring.name
            &&& d2.monitoring.platform_version == d.monitoring.platform_version
            &&& d2.monitoring.program_version == d.monitoring.program_version
            &&& d2.monitoring.program_status == d.monitoring.program_status
            &&& d2.monitoring.deployment_desired_status == d.monitoring.deployment_desired_status
            &&& d2.monitoring.deployment_error == d.monitoring.deployment_error
            &&& d2.runtime_config == d.runtime_config
            &&& d2.program_info == d.program_info
            &&& d2.deployment_config == d.deployment_config
            &&& d2.program_binary_url == d.program_binary_url
        }),
{
}

/// The invariants of the persisted deployment record:
/// a pipeline past `Initializing` keeps its deployment location, `Shutdown`
/// clears it, and every state from `Provisioning` up to `Unavailable` keeps
/// the deployment configuration frozen at the `Shutdown` to `Provisioning`
/// boundary. (`Failed` can be entered straight from `Shutdown` — a
/// compilation failure — and so carries no such guarantees.)
pub open spec fn deployment_record_invariant(d: ExtendedPipelineDescr) -> bool {
    let m = d.monitoring;
    &&& ((m.deployment_status is Initializing || m.deployment_status is Paused
        || m.deployment_status is Running || m.deployment_status is Unavailable)
        ==> m.deployment_location is Some)
    &&& (m.deployment_status is Shutdown ==> m.deployment_location is None)
    &&& ((m.deployment_status is Provisioning || m.deployment_status is Initializing
        || m.deployment_status is Paused || m.deployment_status is Running
        || m.deployment_status is Unavailable) ==> d.deployment_config is Some)
}

/// One full cycle — any transition the table permits, applied after any
/// concurrent user activity — preserves [`deployment_record_invariant`].
pub proof fn law_deployment_record_invariants(
    d: ExtendedPipelineDescr,
    d2: ExtendedPipelineDescr,
    plat: Seq<char>,
    provision_called: bool,
    provisioning_timeout_millis: u64,
    now_emit: i64,
    now_write: i64,
    t: State,
)
    requires
        deployment_record_invariant(d),
        may_emit(d, plat, provision_called, provisioning_timeout_millis, now_emit, t),
        user_step(d, d2),
    ensures
        deployment_record_invariant(spec_apply_transition(d2, t, now_write)),
{
    let m = d.monitoring;
    assert(deployment_record_invariant(d2));
    match m.deployment_status {
        PipelineStatus::Provisioning => {
            if m.deployment_desired_status is Paused || m.deployment_desired_status is Running {
                if provision_called {
                    let res = choose|res: Result<Option<String>, ErrorResponse>|
                        t == #[trigger] spec_decide_awaiting(
                            m.version,
                            m.deployment_status_since,
                            provisioning_timeout_millis,
                            now_emit,
                            res,
                        );
                    match res {
                        Ok(loc) => match loc {
                            Some(_) => {},
                            None => {},
                        },
                        Err(_) => {},
                    }
                }
            }
        },
        PipelineStatus::Initializing => {
            if m.deployment_desired_status is Paused || m.deployment_desired_status is Running {
                let scr = choose|scr: StatusCheckResult|
                    t == #[trigger] spec_decide_initializing(
                        m.version,
                        m.id,
                        scr,
                        m.deployment_status_since,
                        INITIALIZATION_TIMEOUT_MILLIS,
                        now_emit,
                    );
                match scr {
                    StatusCheckResult::Paused => {},
                    StatusCheckResult::Running => {},
                    StatusCheckResult::Unavailable => {},
                    StatusCheckResult::Error(_) => {},
                }
            }
        },
        PipelineStatus::Paused => {
            match m.deployment_desired_status {
                PipelineDesiredStatus::Shutdown => {},
                PipelineDesiredStatus::Paused => {
                    lemma_probe_case(d, d2, t, now_write);
                },
                PipelineDesiredStatus::Running => {
                    lemma_action_case(d, d2, true, t, now_write);
                },
            }
        },
        PipelineStatus::Running => {
            match m.deployment_desired_status {
                PipelineDesiredStatus::Shutdown => {},
                PipelineDesiredStatus::Paused => {
                    lemma_action_case(d, d2, false, t, now_write);
                },
                PipelineDesiredStatus::Running => {
                    lemma_probe_case(d, d2, t, now_write);
                },
            }
        },
        PipelineStatus::Unavailable => {
            if m.deployment_desired_status is Paused || m.deployment_desired_status is Running {
                lemma_probe_case(d, d2, t, now_write);
            }
        },
        PipelineStatus::ShuttingDown => {
            let res = choose|res: Result<(), ErrorResponse>|
                t == #[trigger] spec_decide_shutdown(m.version, res);
            match res {
                Ok(_) => {},
                Err(_) => {},
            }
        },
        _ => {},
    }
}

/// Case helper: any transition a probe may emit preserves the record
/// invariants, the probed statuses all carrying a location and a
/// configuration.
proof fn lemma_probe_case(d: ExtendedPipelineDescr, d2: ExtendedPipelineDescr, t: State, now: i64)
    requires
        deployment_record_invariant(d),
        user_step(d, d2),
        crate::automaton::probe_emit(d.monitoring, t),
        d.monitoring.deployment_status is Paused || d.monitoring.deployment_status is Running
            || d.monitoring.deployment_status is Unavailable,
    ensures
        deployment_record_invariant(spec_apply_transition(d2, t, now)),
{
    let scr = choose|scr: StatusCheckResult|
        t == #[trigger] spec_decide_probe(d.monitoring.deployment_status, d.monitoring.version, scr);
    match scr {
        StatusCheckResult::Paused => {},
        StatusCheckResult::Running => {},
        StatusCheckResult::Unavailable => {},
        StatusCheckResult::Error(_) => {},
    }
}

/// Case helper: any transition a start or pause action may emit preserves
/// the record invariants.
proof fn lemma_action_case(
    d: ExtendedPipelineDescr,
    d2: ExtendedPipelineDescr,
    is_start: bool,
    t: State,
    now: i64,
)
    requires
        deployment_record_invariant(d),
        user_step(d, d2),
        crate::automaton::action_emit(d.monitoring.version, is_start, t),
        d.monitoring.deployment_status is Paused || d.monitoring.deployment_status is Running,
    ensures
        deployment_record_invariant(spec_apply_transition(d2, t, now)),
{
    let (reachable, status, parsed) = choose|reachable: bool, status: u16, parsed: ErrorResponse|
        t == #[trigger] spec_decide_action(d.monitoring.version, is_start, reachable, status, parsed);
    if !reachable {
    } else if status == 200 {
    } else if status == 503 {
    } else {
    }
}

/// Convergence: once edits stop, a healthy environment takes a pipeline
/// from `Shutdown` with desired `Running` to `Running` in five persisted
/// transitions spread over six cycles — `Shutdown` to `Provisioning`, the
/// `provision` call (no persisted transition), `Provisioning` to
/// `Initializing`, to `Paused`, to `Running` — after which a further cycle
/// changes nothing. Healthy means: the program is compiled at the
/// controller's platform, the artifacts are valid (`cfg` is the derived
/// configuration), the executor provisions and reports a location, and the
/// pipeline answers its probes and the start action as asked. Every step is
/// one the transition table permits, and each decision is computed by the
/// cycle's decision functions on the healthy answers.
pub proof fn law_convergence_to_running(
    d0: ExtendedPipelineDescr,
    cfg: serde_json::Value,
    loc: String,
    parsed: ErrorResponse,
    provisioning_timeout_millis: u64,
    now_millis: i64,
)
    requires
        d0.monitoring.deployment_status is Shutdown,
        d0.monitoring.deployment_desired_status is Running,
        d0.monitoring.program_status is Success,
    ensures
        ({
            let plat = d0.monitoring.platform_version@;
            let v = d0.monitoring.version;
            let t1 = State::TransitionToProvisioning {
                version_guard: v,
                deployment_config: cfg,
            };
            let d1 = spec_apply_transition(d0, t1, now_millis);
            let t3 = spec_decide_awaiting(
                v,
                d1.monitoring.deployment_status_since,
                provisioning_timeout_millis,
                now_millis,
                Ok(Some(loc)),
            );
            let d3 = spec_apply_transition(d1, t3, now_millis);
            let t4 = spec_decide_initializing(
                v,
                d3.monitoring.id,
                StatusCheckResult::Paused,
                d3.monitoring.deployment_status_since,
                INITIALIZATION_TIMEOUT_MILLIS,
                now_millis,
            );
            let d4 = spec_apply_transition(d3, t4, now_millis);
            let t5 = spec_decide_action(v, true, true, 200, parsed);
            let d5 = spec_apply_transition(d4, t5, now_millis);
            let t6 = spec_decide_probe(d5.monitoring.deployment_status, v, StatusCheckResult::Running);
            &&& may_emit(d0, plat, false, provisioning_timeout_millis, now_millis, t1)
            &&& d1.monitoring.deployment_status is Provisioning
            &&& may_emit(d1, plat, false, provisioning_timeout_millis, now_millis, State::Unchanged)
            &&& may_emit(d1, plat, true, provisioning_timeout_millis, now_millis, t3)
            &&& d3.monitoring.deployment_status is Initializing
            &&& may_emit(d3, plat, true, provisioning_timeout_millis, now_millis, t4)
            &&& d4.monitoring.deployment_status is Paused
            &&& may_emit(d4, plat, true, provisioning_timeout_millis, now_millis, t5)
            &&& d5.monitoring.deployment_status is Running
            &&& may_emit(d5, plat, true, provisioning_timeout_millis, now_millis, t6)
            &&& t6 is Unchanged
        }),
{
    let plat = d0.monitoring.platform_version@;
    let v = d0.monitoring.version;
    let t1 = State::TransitionToProvisioning { version_guard: v, deployment_config: cfg };
    let d1 = spec_apply_transition(d0, t1, now_millis);
    let t3 = spec_decide_awaiting(
        v,
        d1.monitoring.deployment_status_since,
        provisioning_timeout_millis,
        now_millis,
        Ok(Some(loc)),
    );
    let d3 = spec_apply_transition(d1, t3, now_millis);
    let t4 = spec_decide_initializing(
        v,
        d3.monitoring.id,
        StatusCheckResult::Paused,
        d3.monitoring.deployment_status_since,
        INITIALIZATION_TIMEOUT_MILLIS,
        now_millis,
    );
    let d4 = spec_apply_transition(d3, t4, now_millis);
    let t5 = spec_decide_action(v, true, true, 200, parsed);
    let d5 = spec_apply_transition(d4, t5, now_millis);
    assert(spec_decide_awaiting(
        v,
        d1.monitoring.deployment_status_since,
        provisioning_timeout_millis,
        now_millis,
        Ok(Some(loc)),
    ) == (State::TransitionToInitializing { version_guard: v, deployment_location: loc }));
    assert(may_emit(d1, plat, true, provisioning_timeout_millis, now_millis, t3));
    assert(may_emit(d3, plat, true, provisioning_timeout_millis, now_millis, t4));
    assert(may_emit(d4, plat, true, provisioning_timeout_millis, now_millis, t5));
    assert(may_emit(
        d5,
        plat,
        true,
        provisioning_timeout_millis,
        now_millis,
        spec_decide_probe(d5.monitoring.deployment_status, v, StatusCheckResult::Running),
    ));
}

/// The paused variant of convergence: from `Shutdown` with desired
/// `Paused`, a healthy environment reaches `Paused` in four persisted
/// transitions spread over five cycles, after which a further probe cycle
/// changes nothing.
pub proof fn law_convergence_to_paused(
    d0: ExtendedPipelineDescr,
    cfg: serde_json::Value,
    loc: String,
    provisioning_timeout_millis: u64,
    now_millis: i64,
)
    requires
        d0.monitoring.deployment_status is Shutdown,
        d0.monitoring.deployment_desired_status is Paused,
        d0.monitoring.program_status is Success,
    ensures
        ({
            let plat = d0.monitoring.platform_version@;
            let v = d0.monitoring.version;
            let t1 = State::TransitionToProvisioning {
                version_guard: v,
                deployment_config: cfg,
            };
            let d1 = spec_apply_transition(d0, t1, now_millis);
            let t3 = spec_decide_awaiting(
                v,
                d1.monitoring.deployment_status_since,
                provisioning_timeout_millis,
                now_millis,
                Ok(Some(loc)),
            );
            let d3 = spec_apply_transition(d1, t3, now_millis);
            let t4 = spec_decide_initializing(
                v,
                d3.monitoring.id,
                StatusCheckResult::Paused,
                d3.monitoring.deployment_status_since,
                INITIALIZATION_TIMEOUT_MILLIS,
                now_millis,
            );
            let d4 = spec_apply_transition(d3, t4, now_millis);
            let t5 = spec_decide_probe(d4.monitoring.deployment_status, v, StatusCheckResult::Paused);
            &&& may_emit(d0, plat, false, provisioning_timeout_millis, now_millis, t1)
            &&& d1.monitoring.deployment_status is Provisioning
            &&& may_emit(d1, plat, true, provisioning_timeout_millis, now_millis, t3)
            &&& d3.monitoring.deployment_status is Initializing
            &&& may_emit(d3, plat, true, provisioning_timeout_millis, now_millis, t4)
            &&& d4.monitoring.deployment_status is Paused
            &&& may_emit(d4, plat, true, provisioning_timeout_millis, now_millis, t5)
            &&& t5 is Unchanged
        }),
{
    let plat = d0.monitoring.platform_version@;
    let v = d0.monitoring.version;
    let t1 = State::TransitionToProvisioning { version_guard: v, deployment_config: cfg };
    let d1 = spec_apply_transition(d0, t1, now_millis);
    let t3 = spec_decide_awaiting(
        v,
        d1.monitoring.deployment_status_since,
        provisioning_timeout_millis,
        now_millis,
        Ok(Some(loc)),
    );
    let d3 = spec_apply_transition(d1, t3, now_millis);
    let t4 = spec_decide_initializing(
        v,
        d3.monitoring.id,
        StatusCheckResult::Paused,
        d3.monitoring.deployment_status_since,
        INITIALIZATION_TIMEOUT_MILLIS,
        now_millis,
    );
    let d4 = spec_apply_transition(d3, t4, now_millis);
    assert(may_emit(d1, plat, true, provisioning_timeout_millis, now_millis, t3));
    assert(may_emit(d3, plat, true, provisioning_timeout_millis, now_millis, t4));
    assert(may_emit(
        d4,
        plat,
        true,
        provisioning_timeout_millis,
        now_millis,
        spec_decide_probe(d4.monitoring.deployment_status, v, StatusCheckResult::Paused),
    ));
}

} // verus!
