//! Wall-clock reading and timeout arithmetic.
//!
//! Timestamps are carried as milliseconds since the Unix epoch. The clock
//! itself can promise nothing about the value it returns; everything the
//! automaton decides from a timestamp is computed by verified code that takes
//! the reading as an argument.

use vstd::prelude::*;

verus! {

/// Relies on `chrono::Utc::now` (converted with
/// `chrono::DateTime::timestamp_millis`): the current wall-clock time as
/// milliseconds since the Unix epoch. Like the clock reads of the store's
/// backends, this expects a post-epoch system clock and aborts on a machine
/// whose clock reads earlier.
#[verifier::external_body]
pub(crate) fn now_millis() -> i64 {
    chrono::Utc::now().timestamp_millis()
}

/// Whether the time between `now_millis` and the `since_millis` timestamp has
/// exceeded the timeout.
pub fn has_timeout_expired(since_millis: i64, timeout_millis: u64, now_millis: i64) -> (r: bool)
    ensures
        r == spec_timeout_expired(since_millis as int, timeout_millis as int, now_millis as int),
{
    let elapsed: i128 = (now_millis as i128) - (since_millis as i128);
    elapsed > timeout_millis as i128
}

/// The timeout has expired when more than `timeout` milliseconds lie between
/// the `since` timestamp and `now`.
pub open spec fn spec_timeout_expired(since: int, timeout: int, now: int) -> bool {
    now - since > timeout
}

} // verus!
