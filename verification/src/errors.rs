//! Error taxonomy of the query engine.
//!
//! Four kinds of failure reach a caller: a transport-level failure, a
//! server-reported database failure (which carries the server's
//! retry-eligibility flag), a request-construction failure, and a
//! typed-object projection failure. Every variant carries a numeric code
//! standing for the detail the surrounding program attaches to it.

use vstd::prelude::*;

verus! {

/// A server-reported failure together with the server's statement of
/// whether the request may be retried.
#[derive(Clone, Copy, Debug, PartialEq, Eq, Structural)]
pub struct FirestoreDatabaseError {
    pub retry_possible: bool,
    pub code: u32,
}

/// A failure of one logical call or of one item of a result sequence.
#[derive(Clone, Copy, Debug, PartialEq, Eq, Structural)]
pub enum FirestoreError {
    /// Network- or RPC-level failure.
    Transport(u32),
    /// Failure reported by the database server.
    Database(FirestoreDatabaseError),
    /// The request could not be constructed, for example because the
    /// session's consistency selector has no encoding for the RPC shape.
    Configuration(u32),
    /// A document's shape did not match the target type of a projection.
    Deserialization(u32),
}

/// True of exactly the errors the retry policy may retry: database-reported
/// failures the server flagged as retry-eligible.
pub open spec fn is_retry_eligible(e: FirestoreError) -> bool {
    match e {
        FirestoreError::Database(db) => db.retry_possible,
        _ => false,
    }
}

/// Outcome of one call or of one item of a result sequence.
pub type FirestoreResult<T> = Result<T, FirestoreError>;

impl FirestoreError {
    /// Classifies this error for the retry policy.
    pub fn retry_eligible(&self) -> (b: bool)
        ensures
            b == is_retry_eligible(*self),
    {
        match self {
            FirestoreError::Database(db) => db.retry_possible,
            _ => false,
        }
    }
}

} // verus!
