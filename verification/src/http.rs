//! The pipeline's HTTP control surface, seen from the automaton.
//!
//! One bounded-timeout operation: a JSON request to an endpoint of the
//! running pipeline at its deployment location. An `Err` means the
//! connection failed or the body was not valid JSON; an HTTP error status is
//! a successful call with the status carried in the tuple. The transport
//! itself lives outside the library; the automaton is verified to act
//! correctly on every possible answer.

use vstd::prelude::*;
use crate::types::PipelineId;

verus! {

/// Transport to one pipeline's HTTP control endpoints (`/stats`, `/start`,
/// `/pause`).
pub trait PipelineHttpClient {
    /// Issues a GET request to `endpoint` at `location` and parses the body
    /// as JSON, within the client's hard per-call timeout.
    fn request_json(
        &mut self,
        pipeline_id: PipelineId,
        location: &String,
        endpoint: &str,
    ) -> Result<(u16, serde_json::Value), String>;
}

} // verus!
