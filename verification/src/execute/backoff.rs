//! The limits of an execution and the delay between its attempts.

use vstd::prelude::*;

verus! {

/// The limits that an execution runs under. All times are in milliseconds.
#[derive(Clone, Copy, Debug, PartialEq, Eq, Structural)]
pub struct RetryPolicy {
    /// No attempt starts at or after this much time since the execution
    /// began.
    pub max_elapsed_ms: u64,
    /// The time that one attempt may take.
    pub attempt_timeout_ms: u64,
    /// The delay before the first attempt that follows a busy node.
    pub initial_backoff_ms: u64,
    /// The longest delay between two attempts.
    pub max_backoff_ms: u64,
}

impl RetryPolicy {
    /// A policy allows at least one attempt, and its delays are at least one
    /// millisecond and do not shrink.
    pub open spec fn wf(self) -> bool {
        &&& self.max_elapsed_ms >= 1
        &&& 1 <= self.initial_backoff_ms <= self.max_backoff_ms
    }

    pub fn is_valid(&self) -> (valid: bool)
        ensures
            valid == self.wf(),
    {
        self.max_elapsed_ms >= 1 && 1 <= self.initial_backoff_ms && self.initial_backoff_ms
            <= self.max_backoff_ms
    }
}

impl Default for RetryPolicy {
    /// Two minutes in all, ten seconds for one attempt, and delays from a
    /// quarter of a second up to eight seconds.
    fn default() -> (policy: Self)
        ensures
            policy.max_elapsed_ms == 120_000,
            policy.attempt_timeout_ms == 10_000,
            policy.initial_backoff_ms == 250,
            policy.max_backoff_ms == 8_000,
            policy.wf(),
    {
        RetryPolicy {
            max_elapsed_ms: 120_000,
            attempt_timeout_ms: 10_000,
            initial_backoff_ms: 250,
            max_backoff_ms: 8_000,
        }
    }
}

/// The backoff that follows `backoff`: twice as long, up to the limit.
pub open spec fn grown(backoff: u64, limit: u64) -> u64 {
    if 2 * backoff <= limit {
        (2 * backoff) as u64
    } else {
        limit
    }
}

/// The delay for a backoff and a random number: between half the backoff,
/// rounded up, and the whole of it.
pub open spec fn jittered(backoff: u64, jitter: u64) -> u64 {
    ((backoff - backoff / 2) + jitter % ((backoff / 2 + 1) as u64)) as u64
}

/// A jittered delay lies between half the backoff and the backoff, whatever
/// the random number is, and is not zero unless the backoff is.
pub proof fn lemma_jittered_bounds(backoff: u64, jitter: u64)
    ensures
        backoff - backoff / 2 <= jittered(backoff, jitter) <= backoff,
        backoff >= 1 ==> jittered(backoff, jitter) >= 1,
{
}

/// The backoff after a load-related failure.
pub fn next_backoff(backoff: u64, limit: u64) -> (next: u64)
    ensures
        next == grown(backoff, limit),
{
    if backoff <= limit / 2 {
        backoff * 2
    } else {
        limit
    }
}

/// The delay before the next attempt, for a backoff and a random number.
pub fn jittered_delay(backoff: u64, jitter: u64) -> (delay: u64)
    ensures
        delay == jittered(backoff, jitter),
{
    let half = backoff / 2;
    (backoff - half) + jitter % (half + 1)
}

} // verus!
