//! Pipeline lifecycle controller library.
//!
//! A management plane for streaming SQL pipelines: each pipeline's descriptor
//! is kept in a version-guarded store, and a per-pipeline deployment automaton
//! drives the observed deployment status toward the user-declared desired
//! status, talking to the pipeline runtime through an executor capability and
//! to the running pipeline through its HTTP control surface.

use vstd::prelude::*;

pub mod api;
pub mod automaton;
pub mod clock;
pub mod config;
pub mod descriptor;
pub mod error;
pub mod executor;
pub mod http;
pub mod json;
pub mod laws;
pub mod metrics;
pub mod storage;
pub mod storage_backend;
pub mod strutil;
pub mod trace;
pub mod transition;
pub mod types;

verus! {

/// The optimistic-concurrency token carried by every guarded write to the
/// descriptor store: a monotonic counter bumped on any user edit that affects
/// deployment semantics.
#[derive(Clone, Copy, Debug, PartialEq, Eq, Structural)]
pub struct Version(pub i64);

} // verus!
