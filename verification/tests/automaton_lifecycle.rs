//! End-to-end run-cycle tests of the deployment automaton, against an
//! in-memory descriptor store, a mock executor and a mock pipeline HTTP
//! surface.

use std::collections::HashMap;

use pipeline_manager::automaton::PipelineAutomaton;
use pipeline_manager::descriptor::{
    ExtendedPipelineDescr, ExtendedPipelineDescrMonitoring, ExtendedPipelineDescrRunner,
};
use pipeline_manager::error::{DBError, ErrorResponse};
use pipeline_manager::executor::{PipelineExecutor, StorageConfig};
use pipeline_manager::http::PipelineHttpClient;
use pipeline_manager::storage::Storage;
use pipeline_manager::types::{
    PipelineDesiredStatus, PipelineId, PipelineStatus, ProgramStatus, TenantId,
};
use pipeline_manager::Version;

const TENANT: TenantId = TenantId(7);
const PIPELINE: PipelineId = PipelineId(1);

/// In-memory store for one pipeline, honouring the version-guard contract.
struct MockStore {
    pipeline: Option<ExtendedPipelineDescr>,
    /// Simulates a concurrent user edit landing between the automaton's read
    /// and its next guarded write.
    bump_version_on_next_write: bool,
}

fn needs_complete(d: &ExtendedPipelineDescr, platform: &str, provision_called: bool) -> bool {
    let m = &d.monitoring;
    let up = matches!(
        m.deployment_desired_status,
        PipelineDesiredStatus::Paused | PipelineDesiredStatus::Running
    );
    (matches!(m.deployment_status, PipelineStatus::Shutdown)
        && up
        && matches!(m.program_status, ProgramStatus::Success)
        && m.platform_version == platform)
        || (matches!(m.deployment_status, PipelineStatus::Provisioning) && up && !provision_called)
}

impl MockStore {
    fn guarded(&mut self, guard: Version) -> Result<(), DBError> {
        if self.bump_version_on_next_write {
            self.bump_version_on_next_write = false;
            if let Some(d) = &mut self.pipeline {
                d.monitoring.version = Version(d.monitoring.version.0 + 1);
            }
        }
        match &self.pipeline {
            None => Err(DBError::UnknownPipeline {
                pipeline_id: PIPELINE,
            }),
            Some(d) => {
                if d.monitoring.version == guard {
                    Ok(())
                } else {
                    Err(DBError::OutdatedPipelineVersion {
                        outdated_version: guard,
                        latest_version: d.monitoring.version,
                    })
                }
            }
        }
    }

    fn transit(&mut self, guard: Version, status: PipelineStatus, now: i64) -> Result<(), DBError> {
        self.guarded(guard)?;
        let d = self.pipeline.as_mut().unwrap();
        d.monitoring.deployment_status = status;
        d.monitoring.deployment_status_since = now;
        Ok(())
    }
}

impl Storage for MockStore {
    // The store's model, used only in contracts: this mock's abstract state
    // is its record itself.
    fn pipeline(&self) -> Option<ExtendedPipelineDescr> {
        self.pipeline.clone()
    }

    fn get_pipeline_by_id_for_runner(
        &mut self,
        _tenant_id: TenantId,
        pipeline_id: PipelineId,
        platform_version: &String,
        provision_called: bool,
    ) -> Result<ExtendedPipelineDescrRunner, DBError> {
        match &self.pipeline {
            None => Err(DBError::UnknownPipeline { pipeline_id }),
            Some(d) => {
                if needs_complete(d, platform_version, provision_called) {
                    Ok(ExtendedPipelineDescrRunner::Complete(d.clone()))
                } else {
                    Ok(ExtendedPipelineDescrRunner::Monitoring(d.monitoring.clone()))
                }
            }
        }
    }

    fn transit_deployment_status_to_provisioning(
        &mut self,
        _tenant_id: TenantId,
        _pipeline_id: PipelineId,
        version_guard: Version,
        deployment_config: serde_json::Value,
        now_millis: i64,
    ) -> Result<(), DBError> {
        self.guarded(version_guard)?;
        let d = self.pipeline.as_mut().unwrap();
        d.monitoring.deployment_status = PipelineStatus::Provisioning;
        d.monitoring.deployment_status_since = now_millis;
        d.deployment_config = Some(deployment_config);
        Ok(())
    }

    fn transit_deployment_status_to_initializing(
        &mut self,
        _tenant_id: TenantId,
        _pipeline_id: PipelineId,
        version_guard: Version,
        deployment_location: String,
        now_millis: i64,
    ) -> Result<(), DBError> {
        self.guarded(version_guard)?;
        let d = self.pipeline.as_mut().unwrap();
        d.monitoring.deployment_status = PipelineStatus::Initializing;
        d.monitoring.deployment_status_since = now_millis;
        d.monitoring.deployment_location = Some(deployment_location);
        Ok(())
    }

    fn transit_deployment_status_to_paused(
        &mut self,
        _tenant_id: TenantId,
        _pipeline_id: PipelineId,
        version_guard: Version,
        now_millis: i64,
    ) -> Result<(), DBError> {
        self.transit(version_guard, PipelineStatus::Paused, now_millis)
    }

    fn transit_deployment_status_to_running(
        &mut self,
        _tenant_id: TenantId,
        _pipeline_id: PipelineId,
        version_guard: Version,
        now_millis: i64,
    ) -> Result<(), DBError> {
        self.transit(version_guard, PipelineStatus::Running, now_millis)
    }

    fn transit_deployment_status_to_unavailable(
        &mut self,
        _tenant_id: TenantId,
        _pipeline_id: PipelineId,
        version_guard: Version,
        now_millis: i64,
    ) -> Result<(), DBError> {
        self.transit(version_guard, PipelineStatus::Unavailable, now_millis)
    }

    fn transit_deployment_status_to_shutting_down(
        &mut self,
        _tenant_id: TenantId,
        _pipeline_id: PipelineId,
        version_guard: Version,
        now_millis: i64,
    ) -> Result<(), DBError> {
        self.transit(version_guard, PipelineStatus::ShuttingDown, now_millis)
    }

    fn transit_deployment_status_to_shutdown(
        &mut self,
        _tenant_id: TenantId,
        _pipeline_id: PipelineId,
        version_guard: Version,
        now_millis: i64,
    ) -> Result<(), DBError> {
        self.guarded(version_guard)?;
        let d = self.pipeline.as_mut().unwrap();
        d.monitoring.deployment_status = PipelineStatus::Shutdown;
        d.monitoring.deployment_status_since = now_millis;
        d.monitoring.deployment_location = None;
        Ok(())
    }

    fn transit_deployment_status_to_failed(
        &mut self,
        _tenant_id: TenantId,
        _pipeline_id: PipelineId,
        version_guard: Version,
        deployment_error: ErrorResponse,
        now_millis: i64,
    ) -> Result<(), DBError> {
        self.guarded(version_guard)?;
        let d = self.pipeline.as_mut().unwrap();
        d.monitoring.deployment_status = PipelineStatus::Failed;
        d.monitoring.deployment_status_since = now_millis;
        d.monitoring.deployment_error = Some(deployment_error);
        Ok(())
    }

    fn transit_program_status_to_pending(
        &mut self,
        _tenant_id: TenantId,
        pipeline_id: PipelineId,
        program_version_guard: Version,
    ) -> Result<(), DBError> {
        match &mut self.pipeline {
            None => Err(DBError::UnknownPipeline { pipeline_id }),
            Some(d) => {
                if d.monitoring.program_version == program_version_guard {
                    d.monitoring.program_status = ProgramStatus::Pending;
                    Ok(())
                } else {
                    Err(DBError::OutdatedPipelineVersion {
                        outdated_version: program_version_guard,
                        latest_version: d.monitoring.program_version,
                    })
                }
            }
        }
    }

    fn set_deployment_desired_status_running(
        &mut self,
        _tenant_id: TenantId,
        _pipeline_name: &String,
    ) -> Result<(), DBError> {
        let d = self.pipeline.as_mut().unwrap();
        d.monitoring.deployment_desired_status = PipelineDesiredStatus::Running;
        Ok(())
    }

    fn set_deployment_desired_status_paused(
        &mut self,
        _tenant_id: TenantId,
        _pipeline_name: &String,
    ) -> Result<(), DBError> {
        let d = self.pipeline.as_mut().unwrap();
        d.monitoring.deployment_desired_status = PipelineDesiredStatus::Paused;
        Ok(())
    }

    fn set_deployment_desired_status_shutdown(
        &mut self,
        _tenant_id: TenantId,
        _pipeline_name: &String,
    ) -> Result<(), DBError> {
        let d = self.pipeline.as_mut().unwrap();
        d.monitoring.deployment_desired_status = PipelineDesiredStatus::Shutdown;
        Ok(())
    }

    fn get_pipeline_by_id(
        &mut self,
        _tenant_id: TenantId,
        pipeline_id: PipelineId,
    ) -> Result<ExtendedPipelineDescr, DBError> {
        match &self.pipeline {
            None => Err(DBError::UnknownPipeline { pipeline_id }),
            Some(d) => Ok(d.clone()),
        }
    }
}

/// Mock executor: provisioning succeeds at once and reports the given URI.
struct MockPipeline {
    uri: String,
    fail_check: Option<ErrorResponse>,
    fail_provision: Option<ErrorResponse>,
    still_provisioning: bool,
    fail_shutdown: bool,
}

impl MockPipeline {
    fn healthy(uri: &str) -> Self {
        MockPipeline {
            uri: uri.to_string(),
            fail_check: None,
            fail_provision: None,
            still_provisioning: false,
            fail_shutdown: false,
        }
    }
}

impl PipelineExecutor for MockPipeline {
    fn init(&mut self, _was_provisioned: bool) {}

    fn generate_storage_config(&self) -> StorageConfig {
        StorageConfig {
            path: String::new(),
        }
    }

    fn provision(
        &mut self,
        _deployment_config: &serde_json::Value,
        _program_binary_url: &String,
        _program_version: Version,
    ) -> Result<(), ErrorResponse> {
        match &self.fail_provision {
            Some(e) => Err(e.clone()),
            None => Ok(()),
        }
    }

    fn is_provisioned(&self) -> Result<Option<String>, ErrorResponse> {
        if self.still_provisioning {
            Ok(None)
        } else {
            Ok(Some(self.uri.clone()))
        }
    }

    fn check(&mut self) -> Result<(), ErrorResponse> {
        match &self.fail_check {
            Some(e) => Err(e.clone()),
            None => Ok(()),
        }
    }

    fn shutdown(&mut self) -> Result<(), ErrorResponse> {
        if self.fail_shutdown {
            Err(ErrorResponse::ExecutorError {
                message: "teardown failed".to_string(),
            })
        } else {
            Ok(())
        }
    }
}

/// Mock pipeline HTTP surface: one response per endpoint; unknown endpoints
/// are unreachable.
struct MockHttp {
    responses: HashMap<String, (u16, serde_json::Value)>,
}

impl PipelineHttpClient for MockHttp {
    fn request_json(
        &mut self,
        _pipeline_id: PipelineId,
        _location: &String,
        endpoint: &str,
    ) -> Result<(u16, serde_json::Value), String> {
        match self.responses.get(endpoint) {
            Some((status, body)) => Ok((*status, body.clone())),
            None => Err("connection refused".to_string()),
        }
    }
}

fn mock_endpoint(http: &mut MockHttp, endpoint: &str, code: u16, body: &str) {
    http.responses.clear();
    http.responses
        .insert(endpoint.to_string(), (code, serde_json::from_str(body).unwrap()));
}

fn fresh_descriptor() -> ExtendedPipelineDescr {
    ExtendedPipelineDescr {
        monitoring: ExtendedPipelineDescrMonitoring {
            id: PIPELINE,
            name: "example1".to_string(),
            version: Version(1),
            platform_version: "v0".to_string(),
            program_version: Version(1),
            program_status: ProgramStatus::Success,
            deployment_status: PipelineStatus::Shutdown,
            deployment_desired_status: PipelineDesiredStatus::Shutdown,
            deployment_status_since: 0,
            deployment_location: None,
            deployment_error: None,
        },
        runtime_config: serde_json::from_str("{}").unwrap(),
        program_info: Some(
            serde_json::from_str(r#"{"input_connectors":{},"output_connectors":{}}"#).unwrap(),
        ),
        deployment_config: None,
        program_binary_url: Some("not-used-program-binary-url".to_string()),
    }
}

struct AutomatonTest {
    store: MockStore,
    http: MockHttp,
    automaton: PipelineAutomaton<MockPipeline>,
}

impl AutomatonTest {
    fn set_desired_state(&mut self, status: PipelineStatus) {
        let name = "example1".to_string();
        match status {
            PipelineStatus::Shutdown => self
                .store
                .set_deployment_desired_status_shutdown(TENANT, &name)
                .unwrap(),
            PipelineStatus::Paused => self
                .store
                .set_deployment_desired_status_paused(TENANT, &name)
                .unwrap(),
            PipelineStatus::Running => self
                .store
                .set_deployment_desired_status_running(TENANT, &name)
                .unwrap(),
            _ => panic!("Invalid desired status"),
        }
    }

    fn check_current_state(&mut self, status: PipelineStatus) {
        let pipeline = self.store.get_pipeline_by_id(TENANT, PIPELINE).unwrap();
        assert_eq!(
            status, pipeline.monitoring.deployment_status,
            "Status does not match; deployment_error: {:?}",
            pipeline.monitoring.deployment_error
        );
    }

    fn tick(&mut self) {
        self.automaton.do_run(&mut self.store, &mut self.http).unwrap();
    }

    fn last_error(&mut self) -> ErrorResponse {
        self.store
            .get_pipeline_by_id(TENANT, PIPELINE)
            .unwrap()
            .monitoring
            .deployment_error
            .unwrap()
    }
}

fn setup() -> AutomatonTest {
    setup_with(fresh_descriptor(), MockPipeline::healthy("http://mock"))
}

fn setup_with(descriptor: ExtendedPipelineDescr, executor: MockPipeline) -> AutomatonTest {
    AutomatonTest {
        store: MockStore {
            pipeline: Some(descriptor),
            bump_version_on_next_write: false,
        },
        http: MockHttp {
            responses: HashMap::new(),
        },
        automaton: PipelineAutomaton::new("v0", PIPELINE, TENANT, executor, 10_000, 300, 300),
    }
}

#[test]
fn start_paused() {
    let mut test = setup();
    test.set_desired_state(PipelineStatus::Paused);
    test.check_current_state(PipelineStatus::Shutdown);
    test.tick();
    test.check_current_state(PipelineStatus::Provisioning);
    test.tick(); // provision()
    test.check_current_state(PipelineStatus::Provisioning);
    test.tick(); // is_provisioned()
    test.check_current_state(PipelineStatus::Initializing);
    mock_endpoint(
        &mut test.http,
        "stats",
        200,
        r#"{ "global_metrics": { "state": "Paused" } }"#,
    );
    test.tick();
    test.check_current_state(PipelineStatus::Paused);
    test.tick();
    test.check_current_state(PipelineStatus::Paused);
    test.set_desired_state(PipelineStatus::Shutdown);
    test.tick();
    test.check_current_state(PipelineStatus::ShuttingDown);
    test.tick();
    test.check_current_state(PipelineStatus::Shutdown);
}

#[test]
fn start_running() {
    let mut test = setup();
    test.set_desired_state(PipelineStatus::Running);
    test.check_current_state(PipelineStatus::Shutdown);
    test.tick();
    test.check_current_state(PipelineStatus::Provisioning);
    test.tick(); // provision()
    test.check_current_state(PipelineStatus::Provisioning);
    test.tick(); // is_provisioned()
    test.check_current_state(PipelineStatus::Initializing);
    mock_endpoint(
        &mut test.http,
        "stats",
        200,
        r#"{ "global_metrics": { "state": "Paused" } }"#,
    );
    test.tick();
    test.check_current_state(PipelineStatus::Paused);
    mock_endpoint(&mut test.http, "start", 200, "{}");
    test.tick();
    test.check_current_state(PipelineStatus::Running);
    mock_endpoint(
        &mut test.http,
        "stats",
        200,
        r#"{ "global_metrics": { "state": "Running" } }"#,
    );
    test.tick();
    test.check_current_state(PipelineStatus::Running);
    test.set_desired_state(PipelineStatus::Shutdown);
    test.tick();
    test.check_current_state(PipelineStatus::ShuttingDown);
    test.tick();
    test.check_current_state(PipelineStatus::Shutdown);
}

#[test]
fn start_paused_then_running() {
    let mut test = setup();
    test.set_desired_state(PipelineStatus::Paused);
    test.check_current_state(PipelineStatus::Shutdown);
    test.tick();
    test.check_current_state(PipelineStatus::Provisioning);
    test.tick(); // provision()
    test.check_current_state(PipelineStatus::Provisioning);
    test.tick(); // is_provisioned()
    test.check_current_state(PipelineStatus::Initializing);
    mock_endpoint(
        &mut test.http,
        "stats",
        200,
        r#"{ "global_metrics": { "state": "Paused" } }"#,
    );
    test.tick();
    test.check_current_state(PipelineStatus::Paused);
    test.tick();
    test.check_current_state(PipelineStatus::Paused);
    test.set_desired_state(PipelineStatus::Running);
    mock_endpoint(&mut test.http, "start", 200, "{}");
    test.tick();
    test.check_current_state(PipelineStatus::Running);
    mock_endpoint(
        &mut test.http,
        "stats",
        200,
        r#"{ "global_metrics": { "state": "Running" } }"#,
    );
    test.tick();
    test.check_current_state(PipelineStatus::Running);
    test.set_desired_state(PipelineStatus::Shutdown);
    test.tick();
    test.check_current_state(PipelineStatus::ShuttingDown);
    test.tick();
    test.check_current_state(PipelineStatus::Shutdown);
}

#[test]
fn shutdown_provisioning() {
    let mut test = setup();
    test.set_desired_state(PipelineStatus::Paused);
    test.check_current_state(PipelineStatus::Shutdown);
    test.tick();
    test.check_current_state(PipelineStatus::Provisioning);
    test.set_desired_state(PipelineStatus::Shutdown);
    test.tick();
    test.check_current_state(PipelineStatus::ShuttingDown);
    test.tick();
    test.check_current_state(PipelineStatus::Shutdown);
}

#[test]
fn shutdown_initializing() {
    let mut test = setup();
    test.set_desired_state(PipelineStatus::Paused);
    test.check_current_state(PipelineStatus::Shutdown);
    test.tick();
    test.check_current_state(PipelineStatus::Provisioning);
    test.tick(); // provision()
    test.check_current_state(PipelineStatus::Provisioning);
    test.tick(); // is_provisioned()
    test.check_current_state(PipelineStatus::Initializing);
    test.set_desired_state(PipelineStatus::Shutdown);
    test.tick();
    test.check_current_state(PipelineStatus::ShuttingDown);
    test.tick();
    test.check_current_state(PipelineStatus::Shutdown);
}

#[test]
fn stale_version_during_shutdown_to_provisioning() {
    let mut test = setup();
    test.set_desired_state(PipelineStatus::Paused);
    // A concurrent user edit bumps the version between this cycle's read and
    // its write: the write is rejected and swallowed, the status stays
    // `Shutdown`.
    test.store.bump_version_on_next_write = true;
    test.tick();
    test.check_current_state(PipelineStatus::Shutdown);
    // The next cycle derives a fresh configuration for the new version.
    test.tick();
    test.check_current_state(PipelineStatus::Provisioning);
    let d = test.store.get_pipeline_by_id(TENANT, PIPELINE).unwrap();
    assert_eq!(d.monitoring.version, Version(2));
    assert!(d.deployment_config.is_some());
}

#[test]
fn stale_version_fatal_outside_provisioning() {
    let mut test = setup();
    test.set_desired_state(PipelineStatus::Paused);
    test.tick();
    test.check_current_state(PipelineStatus::Provisioning);
    test.set_desired_state(PipelineStatus::Shutdown);
    // On any boundary but Shutdown-to-Provisioning, a stale guard is fatal.
    test.store.bump_version_on_next_write = true;
    let r = test.automaton.do_run(&mut test.store, &mut test.http);
    assert!(matches!(
        r,
        Err(DBError::OutdatedPipelineVersion {
            outdated_version: Version(1),
            latest_version: Version(2)
        })
    ));
    // No transition was observed.
    test.check_current_state(PipelineStatus::Provisioning);
}

#[test]
fn deleted_pipeline_ends_automaton() {
    let mut test = setup();
    test.store.pipeline = None;
    let r = test.automaton.do_run(&mut test.store, &mut test.http);
    assert!(matches!(r, Err(DBError::UnknownPipeline { .. })));
}

#[test]
fn failed_compilation_fails_deployment() {
    let mut descriptor = fresh_descriptor();
    descriptor.monitoring.program_status = ProgramStatus::SqlError(vec![
        "first message".to_string(),
        "second message".to_string(),
    ]);
    let mut test = setup_with(descriptor, MockPipeline::healthy("http://mock"));
    test.set_desired_state(PipelineStatus::Paused);
    test.tick();
    test.check_current_state(PipelineStatus::Failed);
    assert_eq!(
        test.last_error(),
        ErrorResponse::StartFailedDueToFailedCompilation {
            compiler_error: "first message\nsecond message".to_string()
        }
    );
}

#[test]
fn failed_is_sticky_until_shutdown() {
    let mut descriptor = fresh_descriptor();
    descriptor.monitoring.program_status = ProgramStatus::RustError("borrow error".to_string());
    let mut test = setup_with(descriptor, MockPipeline::healthy("http://mock"));
    test.set_desired_state(PipelineStatus::Running);
    test.tick();
    test.check_current_state(PipelineStatus::Failed);
    // Further cycles with desired Paused or Running change nothing.
    test.tick();
    test.check_current_state(PipelineStatus::Failed);
    test.set_desired_state(PipelineStatus::Paused);
    test.tick();
    test.check_current_state(PipelineStatus::Failed);
    // Only desired Shutdown leaves Failed.
    test.set_desired_state(PipelineStatus::Shutdown);
    test.tick();
    test.check_current_state(PipelineStatus::ShuttingDown);
    test.tick();
    test.check_current_state(PipelineStatus::Shutdown);
}

#[test]
fn platform_mismatch_requests_recompilation() {
    let mut descriptor = fresh_descriptor();
    descriptor.monitoring.platform_version = "v-older".to_string();
    let mut test = setup_with(descriptor, MockPipeline::healthy("http://mock"));
    test.set_desired_state(PipelineStatus::Paused);
    test.tick();
    // No deployment transition: the program goes back to the compiler.
    test.check_current_state(PipelineStatus::Shutdown);
    let d = test.store.get_pipeline_by_id(TENANT, PIPELINE).unwrap();
    assert_eq!(d.monitoring.program_status, ProgramStatus::Pending);
}

#[test]
fn shutdown_retried_until_executor_succeeds() {
    let mut executor = MockPipeline::healthy("http://mock");
    executor.fail_shutdown = true;
    let mut descriptor = fresh_descriptor();
    descriptor.monitoring.deployment_status = PipelineStatus::ShuttingDown;
    let mut test = setup_with(descriptor, executor);
    test.tick();
    test.check_current_state(PipelineStatus::ShuttingDown);
    test.tick();
    test.check_current_state(PipelineStatus::ShuttingDown);
    test.automaton.pipeline_handle.fail_shutdown = false;
    test.tick();
    test.check_current_state(PipelineStatus::Shutdown);
    // The location is cleared on shutdown.
    let d = test.store.get_pipeline_by_id(TENANT, PIPELINE).unwrap();
    assert_eq!(d.monitoring.deployment_location, None);
}

#[test]
fn provisioning_timeout_fails_deployment() {
    let mut executor = MockPipeline::healthy("http://mock");
    executor.still_provisioning = true;
    let mut test = setup_with(fresh_descriptor(), executor);
    test.set_desired_state(PipelineStatus::Paused);
    test.tick();
    test.tick(); // provision()
    test.check_current_state(PipelineStatus::Provisioning);
    // Still provisioning, but well within the timeout: no change.
    test.tick();
    test.check_current_state(PipelineStatus::Provisioning);
    // Age the state beyond the provisioning timeout.
    test.store.pipeline.as_mut().unwrap().monitoring.deployment_status_since = 0;
    test.tick();
    test.check_current_state(PipelineStatus::Failed);
    assert_eq!(
        test.last_error(),
        ErrorResponse::ProvisioningTimeout {
            timeout_millis: 10_000
        }
    );
}

#[test]
fn initialization_timeout_fails_deployment() {
    let mut test = setup();
    test.set_desired_state(PipelineStatus::Paused);
    test.tick();
    test.tick();
    test.tick();
    test.check_current_state(PipelineStatus::Initializing);
    // The pipeline is unreachable (no endpoint mocked), but within the
    // initialization timeout: no change.
    test.tick();
    test.check_current_state(PipelineStatus::Initializing);
    // Age the state beyond the initialization timeout.
    test.store.pipeline.as_mut().unwrap().monitoring.deployment_status_since = 0;
    test.tick();
    test.check_current_state(PipelineStatus::Failed);
    assert_eq!(
        test.last_error(),
        ErrorResponse::InitializingTimeout {
            timeout_millis: 60_000
        }
    );
}

#[test]
fn running_after_initialization_fails_deployment() {
    let mut test = setup();
    test.set_desired_state(PipelineStatus::Paused);
    test.tick();
    test.tick();
    test.tick();
    test.check_current_state(PipelineStatus::Initializing);
    mock_endpoint(
        &mut test.http,
        "stats",
        200,
        r#"{ "global_metrics": { "state": "Running" } }"#,
    );
    test.tick();
    test.check_current_state(PipelineStatus::Failed);
    assert_eq!(
        test.last_error(),
        ErrorResponse::AfterInitializationBecameRunning {
            pipeline_id: PIPELINE
        }
    );
}

#[test]
fn unrecognized_stats_state_fails_deployment() {
    let mut test = setup();
    test.set_desired_state(PipelineStatus::Paused);
    test.tick();
    test.tick();
    test.tick();
    mock_endpoint(
        &mut test.http,
        "stats",
        200,
        r#"{ "global_metrics": { "state": "Terminated" } }"#,
    );
    test.tick();
    test.check_current_state(PipelineStatus::Failed);
    assert!(matches!(
        test.last_error(),
        ErrorResponse::InvalidPipelineResponse { pipeline_id: PIPELINE, .. }
    ));
}

#[test]
fn error_envelope_of_action_is_persisted() {
    let mut test = setup();
    test.set_desired_state(PipelineStatus::Paused);
    test.tick();
    test.tick();
    test.tick();
    mock_endpoint(
        &mut test.http,
        "stats",
        200,
        r#"{ "global_metrics": { "state": "Paused" } }"#,
    );
    test.tick();
    test.check_current_state(PipelineStatus::Paused);
    test.set_desired_state(PipelineStatus::Running);
    mock_endpoint(
        &mut test.http,
        "start",
        400,
        r#"{ "message": "cannot start", "error_code": "StartFailed", "details": {} }"#,
    );
    test.tick();
    test.check_current_state(PipelineStatus::Failed);
    assert_eq!(
        test.last_error(),
        ErrorResponse::PipelineEndpointError {
            error_code: "StartFailed".to_string(),
            message: "cannot start".to_string()
        }
    );
}

#[test]
fn not_ready_action_parks_in_unavailable() {
    let mut test = setup();
    test.set_desired_state(PipelineStatus::Paused);
    test.tick();
    test.tick();
    test.tick();
    mock_endpoint(
        &mut test.http,
        "stats",
        200,
        r#"{ "global_metrics": { "state": "Paused" } }"#,
    );
    test.tick();
    test.check_current_state(PipelineStatus::Paused);
    test.set_desired_state(PipelineStatus::Running);
    mock_endpoint(&mut test.http, "start", 503, "{}");
    test.tick();
    test.check_current_state(PipelineStatus::Unavailable);
    // Once the pipeline answers again, the probe reconciles with what it
    // reports.
    mock_endpoint(
        &mut test.http,
        "stats",
        200,
        r#"{ "global_metrics": { "state": "Paused" } }"#,
    );
    test.tick();
    test.check_current_state(PipelineStatus::Paused);
}

#[test]
fn missing_program_info_fails_deployment() {
    let mut descriptor = fresh_descriptor();
    descriptor.program_info = None;
    let mut test = setup_with(descriptor, MockPipeline::healthy("http://mock"));
    test.set_desired_state(PipelineStatus::Paused);
    test.tick();
    test.check_current_state(PipelineStatus::Failed);
    assert_eq!(test.last_error(), ErrorResponse::MissingProgramInfo);
}

#[test]
fn invalid_runtime_config_fails_deployment() {
    let mut descriptor = fresh_descriptor();
    descriptor.runtime_config = serde_json::from_str("[]").unwrap();
    let mut test = setup_with(descriptor, MockPipeline::healthy("http://mock"));
    test.set_desired_state(PipelineStatus::Paused);
    test.tick();
    test.check_current_state(PipelineStatus::Failed);
    assert!(matches!(
        test.last_error(),
        ErrorResponse::InvalidRuntimeConfig { .. }
    ));
}

#[test]
fn non_boolean_storage_flag_fails_deployment() {
    let mut descriptor = fresh_descriptor();
    descriptor.runtime_config = serde_json::from_str(r#"{ "storage": 5 }"#).unwrap();
    let mut test = setup_with(descriptor, MockPipeline::healthy("http://mock"));
    test.set_desired_state(PipelineStatus::Paused);
    test.tick();
    test.check_current_state(PipelineStatus::Failed);
    assert!(matches!(
        test.last_error(),
        ErrorResponse::InvalidRuntimeConfig { .. }
    ));
}

#[test]
fn invalid_program_info_fails_deployment() {
    let mut descriptor = fresh_descriptor();
    descriptor.program_info = Some(serde_json::from_str(r#"{ "input_connectors": {} }"#).unwrap());
    let mut test = setup_with(descriptor, MockPipeline::healthy("http://mock"));
    test.set_desired_state(PipelineStatus::Paused);
    test.tick();
    test.check_current_state(PipelineStatus::Failed);
    assert!(matches!(
        test.last_error(),
        ErrorResponse::InvalidProgramInfo { .. }
    ));
}

#[test]
fn storage_flag_attaches_storage_config() {
    let mut descriptor = fresh_descriptor();
    descriptor.runtime_config = serde_json::from_str(r#"{ "storage": true }"#).unwrap();
    let mut test = setup_with(descriptor, MockPipeline::healthy("http://mock"));
    test.set_desired_state(PipelineStatus::Paused);
    test.tick();
    test.check_current_state(PipelineStatus::Provisioning);
    let config = test
        .store
        .get_pipeline_by_id(TENANT, PIPELINE)
        .unwrap()
        .deployment_config
        .unwrap();
    assert!(config.get("global").is_some());
    assert!(config.get("inputs").is_some());
    assert!(config.get("outputs").is_some());
    assert!(config.get("storage_config").is_some());
    assert_eq!(
        config.get("global").unwrap().get("storage"),
        Some(&serde_json::Value::Bool(true))
    );
}

#[test]
fn no_storage_flag_leaves_storage_config_out() {
    let mut test = setup();
    test.set_desired_state(PipelineStatus::Paused);
    test.tick();
    let config = test
        .store
        .get_pipeline_by_id(TENANT, PIPELINE)
        .unwrap()
        .deployment_config
        .unwrap();
    assert!(config.get("storage_config").is_none());
}

#[test]
fn missing_deployment_config_fails_provisioning() {
    let mut descriptor = fresh_descriptor();
    descriptor.monitoring.deployment_status = PipelineStatus::Provisioning;
    descriptor.deployment_config = None;
    let mut test = setup_with(descriptor, MockPipeline::healthy("http://mock"));
    test.set_desired_state(PipelineStatus::Paused);
    test.tick();
    test.check_current_state(PipelineStatus::Failed);
    assert_eq!(test.last_error(), ErrorResponse::MissingDeploymentConfig);
}

#[test]
fn invalid_deployment_config_fails_provisioning() {
    let mut descriptor = fresh_descriptor();
    descriptor.monitoring.deployment_status = PipelineStatus::Provisioning;
    descriptor.deployment_config = Some(serde_json::from_str("{}").unwrap());
    let mut test = setup_with(descriptor, MockPipeline::healthy("http://mock"));
    test.set_desired_state(PipelineStatus::Paused);
    test.tick();
    test.check_current_state(PipelineStatus::Failed);
    assert!(matches!(
        test.last_error(),
        ErrorResponse::InvalidDeploymentConfig { .. }
    ));
}

#[test]
fn missing_binary_url_fails_provisioning() {
    let mut descriptor = fresh_descriptor();
    descriptor.monitoring.deployment_status = PipelineStatus::Provisioning;
    descriptor.deployment_config = Some(serde_json::from_str(r#"{ "global": {} }"#).unwrap());
    descriptor.program_binary_url = None;
    let mut test = setup_with(descriptor, MockPipeline::healthy("http://mock"));
    test.set_desired_state(PipelineStatus::Paused);
    test.tick();
    test.check_current_state(PipelineStatus::Failed);
    assert_eq!(test.last_error(), ErrorResponse::MissingProgramBinaryUrl);
}

#[test]
fn platform_mismatch_fails_provisioning() {
    let mut descriptor = fresh_descriptor();
    descriptor.monitoring.deployment_status = PipelineStatus::Provisioning;
    descriptor.monitoring.platform_version = "v1".to_string();
    descriptor.deployment_config = Some(serde_json::from_str(r#"{ "global": {} }"#).unwrap());
    let mut test = setup_with(descriptor, MockPipeline::healthy("http://mock"));
    test.set_desired_state(PipelineStatus::Paused);
    test.tick();
    test.check_current_state(PipelineStatus::Failed);
    assert_eq!(
        test.last_error(),
        ErrorResponse::CannotProvisionDifferentPlatformVersion {
            pipeline_platform_version: "v1".to_string(),
            runner_platform_version: "v0".to_string()
        }
    );
}

#[test]
fn provision_call_failure_fails_deployment() {
    let mut executor = MockPipeline::healthy("http://mock");
    executor.fail_provision = Some(ErrorResponse::ExecutorError {
        message: "no capacity".to_string(),
    });
    let mut test = setup_with(fresh_descriptor(), executor);
    test.set_desired_state(PipelineStatus::Paused);
    test.tick();
    test.check_current_state(PipelineStatus::Provisioning);
    test.tick();
    test.check_current_state(PipelineStatus::Failed);
    assert_eq!(
        test.last_error(),
        ErrorResponse::ExecutorError {
            message: "no capacity".to_string()
        }
    );
}

#[test]
fn failing_runtime_check_fails_deployment() {
    let mut test = setup();
    test.set_desired_state(PipelineStatus::Paused);
    test.tick();
    test.tick();
    test.tick();
    mock_endpoint(
        &mut test.http,
        "stats",
        200,
        r#"{ "global_metrics": { "state": "Paused" } }"#,
    );
    test.tick();
    test.check_current_state(PipelineStatus::Paused);
    test.automaton.pipeline_handle.fail_check = Some(ErrorResponse::ExecutorError {
        message: "process exited".to_string(),
    });
    test.tick();
    test.check_current_state(PipelineStatus::Failed);
    assert_eq!(
        test.last_error(),
        ErrorResponse::ExecutorError {
            message: "process exited".to_string()
        }
    );
}

#[test]
fn probe_reconciles_remote_running_with_stored_paused() {
    let mut descriptor = fresh_descriptor();
    descriptor.monitoring.deployment_status = PipelineStatus::Paused;
    descriptor.monitoring.deployment_location = Some("http://mock".to_string());
    let mut test = setup_with(descriptor, MockPipeline::healthy("http://mock"));
    test.set_desired_state(PipelineStatus::Paused);
    mock_endpoint(
        &mut test.http,
        "stats",
        200,
        r#"{ "global_metrics": { "state": "Running" } }"#,
    );
    test.tick();
    // The observed remote state wins: the store now says Running, and the
    // automaton will try to pause it on a later cycle.
    test.check_current_state(PipelineStatus::Running);
}

#[test]
fn poll_period_follows_the_new_status() {
    let mut test = setup();
    test.set_desired_state(PipelineStatus::Paused);
    // Shutdown to Provisioning: wait the provisioning poll period.
    let poll = test.automaton.do_run(&mut test.store, &mut test.http).unwrap();
    assert_eq!(poll, 300);
    // provision() call, no persisted transition: still provisioning.
    let poll = test.automaton.do_run(&mut test.store, &mut test.http).unwrap();
    assert_eq!(poll, 300);
    // Provisioning to Initializing: the fast initialization poll period.
    let poll = test.automaton.do_run(&mut test.store, &mut test.http).unwrap();
    assert_eq!(poll, 250);
    mock_endpoint(
        &mut test.http,
        "stats",
        200,
        r#"{ "global_metrics": { "state": "Paused" } }"#,
    );
    // Initializing to Paused: the default poll period.
    let poll = test.automaton.do_run(&mut test.store, &mut test.http).unwrap();
    assert_eq!(poll, 2_500);
    test.set_desired_state(PipelineStatus::Shutdown);
    // Paused to ShuttingDown: the shutdown poll period.
    let poll = test.automaton.do_run(&mut test.store, &mut test.http).unwrap();
    assert_eq!(poll, 300);
    // ShuttingDown to Shutdown: the shutdown poll period.
    let poll = test.automaton.do_run(&mut test.store, &mut test.http).unwrap();
    assert_eq!(poll, 300);
}
