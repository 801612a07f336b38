//! The query entry paths: retrying establishment composed with the
//! stream adapters.
//!
//! Establishing a query — building the request and issuing the RPC — is
//! retried under the bounded-retry policy; what an established stream
//! then yields is never retried, it flows through the adapters. Each
//! function here runs one whole path over an establishment trace: the
//! outcome each establishment attempt would have, a raw element sequence
//! on success.

use vstd::prelude::*;
use crate::errors::FirestoreError;
use crate::params::FirestoreDocument;
use crate::retry::{attempts_made, execute_with_retries};
use crate::stream::{
    collect_batch, collect_dropping, collect_surfacing, dropped_seq, first_failure, surfaced_seq,
    FirestoreStreamElement,
};

verus! {

/// One establishment trace: per attempt, the raw elements the query's
/// stream would yield, or the error establishing it would report.
pub type QueryAttemptTrace = Vec<
    Result<Vec<FirestoreStreamElement<FirestoreDocument>>, FirestoreError>,
>;

/// Establishes a query stream under the retry policy and hands its raw
/// elements back unconsumed, with the number of attempts made.
pub fn stream_query_doc_with_retries(attempts: QueryAttemptTrace, max_retries: usize) -> (r: (
    usize,
    Result<Vec<FirestoreStreamElement<FirestoreDocument>>, FirestoreError>,
))
    requires
        attempts@.len() > max_retries,
    ensures
        r.0 == attempts_made(attempts@, max_retries as int),
        1 <= r.0 <= max_retries + 1,
        r.1 == attempts@[r.0 - 1],
{
    execute_with_retries(attempts, max_retries)
}

/// Runs one batch query: establishment under the retry policy, then
/// all-or-nothing materialization — the documents in order when no
/// element failed, otherwise the first per-item failure; an
/// establishment error ends the call unretried past the policy.
pub fn query_doc_with_retries(attempts: QueryAttemptTrace, max_retries: usize) -> (r: (
    usize,
    Result<Vec<FirestoreDocument>, FirestoreError>,
))
    requires
        attempts@.len() > max_retries,
    ensures
        r.0 == attempts_made(attempts@, max_retries as int),
        1 <= r.0 <= max_retries + 1,
        (match attempts@[r.0 - 1] {
            Ok(elements) => (match r.1 {
                Ok(docs) => first_failure(elements@) is None && docs@ == dropped_seq(elements@),
                Err(e) => first_failure(elements@) == Some(e),
            }),
            Err(e) => r.1 == Err::<Vec<FirestoreDocument>, FirestoreError>(e),
        }),
{
    let (made, outcome) = execute_with_retries(attempts, max_retries);
    match outcome {
        Ok(elements) => (made, collect_batch(elements)),
        Err(e) => (made, Err(e)),
    }
}

/// Runs one streaming query in drop-errors mode: establishment under the
/// retry policy, then per-item failures and empty markers vanish and the
/// surviving documents keep their order.
pub fn stream_query_doc(attempts: QueryAttemptTrace, max_retries: usize) -> (r: (
    usize,
    Result<Vec<FirestoreDocument>, FirestoreError>,
))
    requires
        attempts@.len() > max_retries,
    ensures
        r.0 == attempts_made(attempts@, max_retries as int),
        1 <= r.0 <= max_retries + 1,
        (match attempts@[r.0 - 1] {
            Ok(elements) => r.1 matches Ok(docs) && docs@ == dropped_seq(elements@),
            Err(e) => r.1 == Err::<Vec<FirestoreDocument>, FirestoreError>(e),
        }),
{
    let (made, outcome) = execute_with_retries(attempts, max_retries);
    match outcome {
        Ok(elements) => (made, Ok(collect_dropping(elements))),
        Err(e) => (made, Err(e)),
    }
}

/// Runs one streaming query in surface-errors mode: establishment under
/// the retry policy, then empty markers vanish and per-item failures
/// survive in place.
pub fn stream_query_doc_with_errors(attempts: QueryAttemptTrace, max_retries: usize) -> (r: (
    usize,
    Result<Vec<Result<FirestoreDocument, FirestoreError>>, FirestoreError>,
))
    requires
        attempts@.len() > max_retries,
    ensures
        r.0 == attempts_made(attempts@, max_retries as int),
        1 <= r.0 <= max_retries + 1,
        (match attempts@[r.0 - 1] {
            Ok(elements) => r.1 matches Ok(items) && items@ == surfaced_seq(elements@),
            Err(e) => r.1 == Err::<Vec<Result<FirestoreDocument, FirestoreError>>, FirestoreError>(
                e,
            ),
        }),
{
    let (made, outcome) = execute_with_retries(attempts, max_retries);
    match outcome {
        Ok(elements) => (made, Ok(collect_surfacing(elements))),
        Err(e) => (made, Err(e)),
    }
}

} // verus!
