//! Bounded retry on transient failure.
//!
//! One logical request is attempted up to `max_retries + 1` times. After a
//! failed attempt the outcome is classified: a database-reported error the
//! server flagged retry-eligible is retried while attempts remain; any
//! other outcome — a success, a non-retry-eligible error, or a
//! retry-eligible error at the cap — ends the run and is returned to the
//! caller unchanged. Retries are immediate, with no backoff.
//!
//! The run is modeled over an attempt trace: the outcome each attempt
//! would have, as a plain value. The surrounding program performs the
//! actual calls one by one, asking [`retry_decision`] after each failure;
//! [`execute_with_retries`] states what the whole run returns for a given
//! trace.

use vstd::prelude::*;
use crate::errors::{is_retry_eligible, FirestoreError};

verus! {

/// What the retry policy says to do after a failed attempt.
#[derive(Clone, Copy, Debug, PartialEq, Eq, Structural)]
pub enum RetryDecision {
    /// Attempt again immediately.
    Retry,
    /// Return the error to the caller unchanged.
    GiveUp,
}

/// True of an attempt outcome that ends the run regardless of how many
/// attempts remain: a success or a non-retry-eligible error.
pub open spec fn attempt_halts<T>(outcome: Result<T, FirestoreError>) -> bool {
    match outcome {
        Ok(_) => true,
        Err(e) => !is_retry_eligible(e),
    }
}

/// Number of attempts a run over the given trace makes once `at` attempts
/// already happened: attempts continue until an outcome halts the run or
/// the cap is reached.
pub open spec fn attempts_made_from<T>(
    trace: Seq<Result<T, FirestoreError>>,
    at: int,
    max_retries: int,
) -> int
    decreases max_retries - at,
{
    if at >= max_retries || attempt_halts(trace[at]) {
        at + 1
    } else {
        attempts_made_from(trace, at + 1, max_retries)
    }
}

/// Number of attempts a run over the given trace makes in all.
pub open spec fn attempts_made<T>(trace: Seq<Result<T, FirestoreError>>, max_retries: int) -> int {
    attempts_made_from(trace, 0, max_retries)
}

/// The retry policy's answer after a failed attempt: retry exactly when
/// the server flagged the error retry-eligible and attempts remain below
/// the cap.
pub fn retry_decision(err: &FirestoreError, retries: usize, max_retries: usize) -> (d:
    RetryDecision)
    ensures
        d == RetryDecision::Retry <==> (is_retry_eligible(*err) && retries < max_retries),
{
    if err.retry_eligible() && retries < max_retries {
        RetryDecision::Retry
    } else {
        RetryDecision::GiveUp
    }
}

/// Runs the bounded-retry policy over an attempt trace: the result is the
/// outcome of the first attempt that halts the run — the first success or
/// non-retry-eligible error, or the attempt at the cap — together with how
/// many attempts were made.
pub fn execute_with_retries<T>(attempts: Vec<Result<T, FirestoreError>>, max_retries: usize) -> (r:
    (usize, Result<T, FirestoreError>))
    requires
        attempts.len() > max_retries,
    ensures
        r.0 == attempts_made(attempts@, max_retries as int),
        1 <= r.0 <= max_retries + 1,
        r.1 == attempts@[r.0 - 1],
        forall|j: int| 0 <= j < r.0 - 1 ==> !attempt_halts(#[trigger] attempts@[j]),
        attempt_halts(attempts@[r.0 - 1]) || r.0 == max_retries + 1,
{
    let mut attempts = attempts;
    let mut retries: usize = 0;
    loop
        invariant
            retries <= max_retries,
            attempts.len() > max_retries,
            forall|j: int| 0 <= j < retries ==> !attempt_halts(#[trigger] attempts@[j]),
        ensures
            retries <= max_retries,
            forall|j: int| 0 <= j < retries ==> !attempt_halts(#[trigger] attempts@[j]),
            attempt_halts(attempts@[retries as int]) || retries == max_retries,
        decreases max_retries - retries,
    {
        let halts = match &attempts[retries] {
            Ok(_) => true,
            Err(e) => !e.retry_eligible(),
        };
        if halts || retries == max_retries {
            break;
        }
        retries = retries + 1;
    }
    proof {
        lemma_attempts_made_from_first_halt(
            attempts@,
            0,
            retries as int,
            max_retries as int,
        );
    }
    let outcome = attempts.remove(retries);
    (retries + 1, outcome)
}

/// Helper: when the outcomes before `h` do not halt the run and `h` is a
/// halting outcome or the cap, the run halts after attempt `h`.
proof fn lemma_attempts_made_from_first_halt<T>(
    trace: Seq<Result<T, FirestoreError>>,
    at: int,
    h: int,
    max_retries: int,
)
    requires
        0 <= at <= h <= max_retries,
        forall|j: int| at <= j < h ==> !attempt_halts(#[trigger] trace[j]),
        attempt_halts(trace[h]) || h == max_retries,
    ensures
        attempts_made_from(trace, at, max_retries) == h + 1,
    decreases h - at,
{
    if at < h {
        lemma_attempts_made_from_first_halt(trace, at + 1, h, max_retries);
    }
}

/// A run whose first attempt fails with a non-retry-eligible error makes
/// exactly one attempt.
pub proof fn lemma_terminal_error_attempted_once<T>(
    trace: Seq<Result<T, FirestoreError>>,
    max_retries: int,
)
    requires
        max_retries >= 0,
        trace[0] matches Err(e) && !is_retry_eligible(e),
    ensures
        attempts_made(trace, max_retries) == 1,
{
}

/// A run whose attempts fail retry-eligibly until the first success at
/// position `k` makes exactly `min(k + 1, max_retries + 1)` attempts; when
/// the success lies within the cap it is returned, otherwise the run ends
/// at the cap with the last — retry-eligible — error.
pub proof fn lemma_retry_until_first_success<T>(
    trace: Seq<Result<T, FirestoreError>>,
    k: int,
    max_retries: int,
)
    requires
        max_retries >= 0,
        0 <= k < trace.len(),
        trace[k] is Ok,
        forall|j: int| 0 <= j < k ==> ((#[trigger] trace[j]) matches Err(e)
            && is_retry_eligible(e)),
    ensures
        attempts_made(trace, max_retries) == if k + 1 <= max_retries + 1 {
            k + 1
        } else {
            max_retries + 1
        },
        k <= max_retries ==> trace[attempts_made(trace, max_retries) - 1] == trace[k],
        k > max_retries ==> (trace[attempts_made(trace, max_retries) - 1] matches Err(e)
            && is_retry_eligible(e)),
{
    if k <= max_retries {
        lemma_attempts_made_from_first_halt(trace, 0, k, max_retries);
    } else {
        lemma_attempts_made_from_first_halt(trace, 0, max_retries, max_retries);
    }
}

/// A run whose every attempt fails retry-eligibly makes exactly
/// `max_retries + 1` attempts and returns the last error.
pub proof fn lemma_retry_exhaustion<T>(trace: Seq<Result<T, FirestoreError>>, max_retries: int)
    requires
        max_retries >= 0,
        trace.len() > max_retries,
        forall|j: int| 0 <= j <= max_retries ==> ((#[trigger] trace[j]) matches Err(e)
            && is_retry_eligible(e)),
    ensures
        attempts_made(trace, max_retries) == max_retries + 1,
        trace[attempts_made(trace, max_retries) - 1] == trace[max_retries],
{
    lemma_attempts_made_from_first_halt(trace, 0, max_retries, max_retries);
}

} // verus!
