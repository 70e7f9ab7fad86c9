//! Selection and assembly rules of the metrics scrape endpoints.
//!
//! Two endpoints expose pipeline metrics: the user-facing one gathers from
//! every deployed pipeline of the tenant, the controller-level one from
//! every running pipeline across tenants. The HTTP plumbing lives with the
//! binaries; here stand the rules saying which pipelines are scraped and
//! how the collected chunks are put together.

use vstd::prelude::*;
use crate::error::ErrorResponse;
use crate::types::PipelineStatus;

verus! {

/// Whether the user-facing metrics endpoint scrapes a pipeline: exactly the
/// deployed ones, running or paused.
pub fn should_scrape_pipeline(status: PipelineStatus) -> (r: bool)
    ensures
        r == (status is Running || status is Paused),
{
    status == PipelineStatus::Running || status == PipelineStatus::Paused
}

/// Where the controller-level metrics endpoint scrapes one pipeline:
/// a running pipeline is scraped at its deployment location, and a running
/// pipeline without one is an error; any other pipeline is skipped.
pub fn metrics_scrape_target(status: PipelineStatus, deployment_location: Option<String>) -> (r:
    Result<Option<String>, ErrorResponse>)
    ensures
        ({
            match deployment_location {
                Some(location) => r == Ok::<Option<String>, ErrorResponse>(
                    if status is Running {
                        Some(location)
                    } else {
                        None
                    },
                ),
                None => if status is Running {
                    r == Err::<Option<String>, ErrorResponse>(
                        ErrorResponse::MissingDeploymentLocation,
                    )
                } else {
                    r == Ok::<Option<String>, ErrorResponse>(None)
                },
            }
        }),
{
    if status == PipelineStatus::Running {
        match deployment_location {
            Some(location) => Ok(Some(location)),
            None => Err(ErrorResponse::MissingDeploymentLocation),
        }
    } else {
        Ok(None)
    }
}

/// The scraped chunks laid out one after the other, each chunk followed by
/// one newline byte.
pub open spec fn spec_concat_chunks(s: Seq<Seq<u8>>) -> Seq<u8>
    decreases s.len(),
{
    if s.len() == 0 {
        Seq::empty()
    } else {
        spec_concat_chunks(s.drop_last()) + s.last() + seq![10u8]
    }
}

/// Assembles the scraped chunks into one response body, a newline after
/// each chunk.
pub fn concat_metric_chunks(chunks: &Vec<Vec<u8>>) -> (r: Vec<u8>)
    ensures
        r@ == spec_concat_chunks(chunks.deep_view()),
{
    let mut out: Vec<u8> = Vec::new();
    let mut i: usize = 0;
    proof {
        assert(chunks.deep_view().take(0int) =~= Seq::<Seq<u8>>::empty());
        assert(out@ =~= spec_concat_chunks(chunks.deep_view().take(0int)));
    }
    while i < chunks.len()
        invariant
            i <= chunks.len(),
            out@ == spec_concat_chunks(chunks.deep_view().take(i as int)),
        decreases chunks.len() - i,
    {
        let chunk = &chunks[i];
        proof {
            assert(chunks.deep_view()[i as int] == chunk@);
        }
        let mut j: usize = 0;
        while j < chunk.len()
            invariant
                i < chunks.len(),
                j <= chunk.len(),
                chunk == &chunks[i as int],
                chunks.deep_view()[i as int] == chunk@,
                out@ == spec_concat_chunks(chunks.deep_view().take(i as int)) + chunk@.take(
                    j as int,
                ),
            decreases chunk.len() - j,
        {
            out.push(chunk[j]);
            proof {
                assert(chunk@.take(j + 1int) =~= chunk@.take(j as int).push(chunk@[j as int]));
                assert(out@ =~= spec_concat_chunks(chunks.deep_view().take(i as int)) + chunk@.take(
                    j + 1int,
                ));
            }
            j += 1;
        }
        out.push(10u8);
        proof {
            let pre = chunks.deep_view().take(i as int);
            let cur = chunks.deep_view().take(i + 1int);
            assert(cur.drop_last() =~= pre);
            assert(cur.last() == chunk@);
            assert(chunk@.take(chunk@.len() as int) =~= chunk@);
            assert(out@ =~= spec_concat_chunks(cur));
        }
        i += 1;
    }
    proof {
        assert(chunks.deep_view().take(chunks@.len() as int) =~= chunks.deep_view());
    }
    out
}

} // verus!
