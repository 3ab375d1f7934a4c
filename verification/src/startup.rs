use vstd::prelude::*;

verus! {

/// How many times the database connection is attempted before giving up.
pub const MAX_CONNECT_ATTEMPTS: u32 = 10;

/// Seconds to wait between two connection attempts.
pub const RETRY_DELAY_SECS: u64 = 1;

/// What follows a failed connection attempt.
#[derive(Debug, Clone, Copy, PartialEq, Eq)]
pub enum ConnectStep {
    /// Wait `RETRY_DELAY_SECS` and make attempt `next_attempt`.
    Retry { next_attempt: u32 },
    /// Stop: every attempt failed.
    GiveUp,
}

/// The step after attempt `attempt` (counted from 1) failed: another attempt
/// while fewer than `MAX_CONNECT_ATTEMPTS` have been made, else give up.
pub fn after_failed_attempt(attempt: u32) -> (step: ConnectStep)
    requires
        1 <= attempt <= MAX_CONNECT_ATTEMPTS,
    ensures
        attempt < MAX_CONNECT_ATTEMPTS ==> step == (ConnectStep::Retry {
            next_attempt: (attempt + 1) as u32,
        }),
        attempt == MAX_CONNECT_ATTEMPTS ==> step == ConnectStep::GiveUp,
{
    if attempt < MAX_CONNECT_ATTEMPTS {
        ConnectStep::Retry { next_attempt: attempt + 1 }
    } else {
        ConnectStep::GiveUp
    }
}

/// The attempt reached from `attempt` by retrying after each failure, or
/// `None` once the steps give up; `failures` failures in a row.
pub open spec fn attempt_after_failures(attempt: int, failures: nat) -> Option<int>
    decreases failures,
{
    if failures == 0 {
        Some(attempt)
    } else if attempt < MAX_CONNECT_ATTEMPTS {
        attempt_after_failures(attempt + 1, (failures - 1) as nat)
    } else {
        None
    }
}

/// Starting from the first attempt, the connection is tried exactly
/// `MAX_CONNECT_ATTEMPTS` times: after `f` failures with
/// `f < MAX_CONNECT_ATTEMPTS` attempt `f + 1` is made, and the failure of the
/// last one gives up.
pub proof fn law_bounded_attempts(failures: nat)
    ensures
        failures < MAX_CONNECT_ATTEMPTS ==> attempt_after_failures(1, failures) == Some(
            failures + 1int,
        ),
        failures >= MAX_CONNECT_ATTEMPTS ==> attempt_after_failures(1, failures) is None,
{
    lemma_attempts_from(1, failures);
}

proof fn lemma_attempts_from(attempt: int, failures: nat)
    requires
        1 <= attempt <= MAX_CONNECT_ATTEMPTS,
    ensures
        attempt + failures <= MAX_CONNECT_ATTEMPTS ==> attempt_after_failures(attempt, failures)
            == Some(attempt + failures),
        attempt + failures > MAX_CONNECT_ATTEMPTS ==> attempt_after_failures(attempt, failures)
            is None,
    decreases failures,
{
    if failures > 0 && attempt < MAX_CONNECT_ATTEMPTS {
        lemma_attempts_from(attempt + 1, (failures - 1) as nat);
    }
}

/// A required setting: present and not empty, else missing.
pub fn required_setting(value: Option<String>) -> (setting: Option<String>)
    ensures
        setting == (match value {
            Some(v) => if v@.len() != 0 {
                Some(v)
            } else {
                None
            },
            None => None,
        }),
{
    match value {
        Some(v) => if v.as_str().is_empty() {
            None
        } else {
            Some(v)
        },
        None => None,
    }
}

} // verus!
