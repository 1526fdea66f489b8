//! The rule by which a failed attempt is tried again.

use vstd::prelude::*;

verus! {

/// How an attempt went.
#[derive(Debug, Clone, Copy, PartialEq, Eq, Structural)]
pub enum Attempt {
    /// It went well.
    Succeeded,
    /// It failed for a reason that may pass.
    Transient,
    /// It failed for a reason that will not pass.
    Permanent,
}

/// What to do after an attempt.
#[derive(Debug, Clone, Copy, PartialEq, Eq, Structural)]
pub enum Retry {
    /// The work is done.
    Done,
    /// Wait, then try again.
    Again,
    /// Report the failure of the last attempt.
    GiveUp,
}

/// The time, in milliseconds, after which no further attempt is made unless
/// the caller sets another.
pub const DEFAULT_LIMIT_MS: u64 = 60_000;

/// What to do after an attempt that ended `elapsed_ms` after the first one
/// began: a failure that may pass is tried again as long as no more than
/// `limit_ms` has gone by, and a failure that will not pass is never tried
/// again.
pub open spec fn retry_step(attempt: Attempt, elapsed_ms: u64, limit_ms: u64) -> Retry {
    match attempt {
        Attempt::Succeeded => Retry::Done,
        Attempt::Permanent => Retry::GiveUp,
        Attempt::Transient => if elapsed_ms <= limit_ms {
            Retry::Again
        } else {
            Retry::GiveUp
        },
    }
}

/// What to do after an attempt that ended `elapsed_ms` after the first one
/// began, with `limit_ms` as the time after which no attempt is made.
pub fn retry_for(attempt: Attempt, elapsed_ms: u64, limit_ms: u64) -> (r: Retry)
    ensures
        r == retry_step(attempt, elapsed_ms, limit_ms),
{
    match attempt {
        Attempt::Succeeded => Retry::Done,
        Attempt::Permanent => Retry::GiveUp,
        Attempt::Transient => if elapsed_ms <= limit_ms {
            Retry::Again
        } else {
            Retry::GiveUp
        },
    }
}

/// What to do after an attempt, with a limit of 60 seconds.
pub fn retry(attempt: Attempt, elapsed_ms: u64) -> (r: Retry)
    ensures
        r == retry_step(attempt, elapsed_ms, DEFAULT_LIMIT_MS),
{
    retry_for(attempt, elapsed_ms, DEFAULT_LIMIT_MS)
}

} // verus!
