//! The decisions of the benchmark's writers, query workers and freshness
//! checks between their requests.

use vstd::prelude::*;

verus! {

/// What a writer or query worker does after one request.
#[derive(PartialEq, Eq, Structural, Clone, Copy, Debug)]
pub enum RetryStep {
    /// The request went through: go on to the next batch or query.
    Proceed,
    /// The request failed: wait this many milliseconds and send it again.
    RetryAfter(u64),
}

/// After one request: go on when it succeeded; else wait the random
/// `jitter_ms` (drawn from 10 to 99 milliseconds) and send it again.
pub fn retry_step(succeeded: bool, jitter_ms: u64) -> (r: RetryStep)
    requires
        10 <= jitter_ms < 100,
    ensures
        succeeded ==> r == RetryStep::Proceed,
        !succeeded ==> r == RetryStep::RetryAfter(jitter_ms),
{
    if succeeded {
        RetryStep::Proceed
    } else {
        RetryStep::RetryAfter(jitter_ms)
    }
}

/// What a freshness check does after looking up the newest written id.
#[derive(PartialEq, Eq, Structural, Clone, Copy, Debug)]
pub enum FreshnessStep {
    /// Found at the first lookup: record a latency of zero and stop.
    RecordZero,
    /// Not found at the first lookup: start the clock and look again at once.
    StartClock,
    /// Still not found: look again after this many milliseconds.
    PollAfter(u64),
    /// Found after waiting: record the time since the clock started and stop.
    RecordElapsed,
}

/// The next step of a freshness check, from whether this was the first
/// lookup and whether the document was found.
pub fn freshness_step(first: bool, found: bool) -> (r: FreshnessStep)
    ensures
        first && found ==> r == FreshnessStep::RecordZero,
        first && !found ==> r == FreshnessStep::StartClock,
        !first && found ==> r == FreshnessStep::RecordElapsed,
        !first && !found ==> r == FreshnessStep::PollAfter(100),
{
    if first {
        if found { FreshnessStep::RecordZero } else { FreshnessStep::StartClock }
    } else {
        if found { FreshnessStep::RecordElapsed } else { FreshnessStep::PollAfter(100) }
    }
}

} // verus!
