//! How a failed download is retried: each failed attempt is followed by a
//! pause of as many seconds as its number, and three attempts are made at most.

use vstd::prelude::*;

verus! {

/// The number of attempts made at most for one download.
pub const MAX_RETRIES: u32 = 3;

/// What to do after a failed attempt: pause, then try again or give up.
#[derive(Debug, PartialEq, Eq, Structural, Clone, Copy)]
pub struct RetryDecision {
    pub delay_secs: u64,
    pub retry: bool,
}

/// The decision after attempt `attempt` (from 1) failed: pause `attempt`
/// seconds, then try again unless it was the last allowed attempt.
pub fn after_failed_attempt(attempt: u32) -> (decision: RetryDecision)
    requires
        1 <= attempt <= MAX_RETRIES,
    ensures
        decision.delay_secs == attempt,
        decision.retry == (attempt < MAX_RETRIES),
{
    RetryDecision { delay_secs: attempt as u64, retry: attempt < MAX_RETRIES }
}

} // verus!
