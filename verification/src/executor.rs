//! The executor capability: the abstract handle to one pipeline's runtime.
//!
//! Concrete executors (a local process, a container, a virtual machine, a
//! test mock) live outside the library and implement this trait. The
//! automaton owns its executor exclusively; dropping the handle must not
//! tear the runtime down, since the persisted descriptor is what a restarted
//! controller reattaches from. Nothing is promised about the outcome of any
//! call: the automaton is verified to act correctly on every possible
//! result.

use vstd::prelude::*;
use crate::error::ErrorResponse;
use crate::Version;

verus! {

/// Per-pipeline persistent-storage settings, consulted before provisioning
/// when the runtime configuration asks for storage.
pub struct StorageConfig {
    /// Directory or volume the pipeline may persist state under.
    pub path: String,
}

/// Abstract handle to one pipeline's runtime.
pub trait PipelineExecutor {
    /// Called exactly once per automaton start; `was_provisioned` is true
    /// iff the persisted status on controller restart says prior runtime
    /// resources may exist. Implementations may reattach to them.
    fn init(&mut self, was_provisioned: bool);

    /// Produces the per-pipeline persistent-storage settings.
    fn generate_storage_config(&self) -> StorageConfig;

    /// Launches the runtime asynchronously; idempotent, and safe to call
    /// again after a controller restart.
    fn provision(
        &mut self,
        deployment_config: &serde_json::Value,
        program_binary_url: &String,
        program_version: Version,
    ) -> Result<(), ErrorResponse>;

    /// Polls the launch: `Some(location)` once the pipeline is reachable
    /// for initialization, `None` while still provisioning.
    fn is_provisioned(&self) -> Result<Option<String>, ErrorResponse>;

    /// Lightweight liveness check on the underlying runtime (distinct from
    /// the remote pipeline's readiness).
    fn check(&mut self) -> Result<(), ErrorResponse>;

    /// Unconditionally terminates and releases the runtime resources; must
    /// be safe to call in any state, including repeatedly.
    fn shutdown(&mut self) -> Result<(), ErrorResponse>;
}

} // verus!
