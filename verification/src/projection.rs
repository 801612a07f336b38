//! Typed-object projection policy.
//!
//! A document is projected to a typed value by a deserialization step
//! outside the engine; the engine receives each projection's outcome as a
//! plain `Result` and decides what the consumer sees. In a stream, a
//! failed projection becomes a per-item error element and then obeys the
//! same drop-errors / surface-errors policy as any other per-item
//! failure. In a batch, the whole call fails with the first projection
//! failure — all-or-nothing, as for batch queries.

use vstd::prelude::*;
use crate::errors::FirestoreError;
use crate::stream::{drop_policy, surface_policy, FirestoreStreamElement};

verus! {

/// The stream element a projection outcome becomes: a value, or a
/// per-item failure.
pub open spec fn projected_element_of<T>(proj: Result<T, FirestoreError>) -> FirestoreStreamElement<
    T,
> {
    match proj {
        Ok(v) => FirestoreStreamElement::Found(v),
        Err(e) => FirestoreStreamElement::Failed(e),
    }
}

/// Turns one projection outcome into a stream element, to run through the
/// same adapters as the document stream itself.
pub fn projection_to_element<T>(proj: Result<T, FirestoreError>) -> (r: FirestoreStreamElement<T>)
    ensures
        r == projected_element_of(proj),
{
    match proj {
        Ok(v) => FirestoreStreamElement::Found(v),
        Err(e) => FirestoreStreamElement::Failed(e),
    }
}

/// The first failure among a sequence of projection outcomes, when there
/// is one.
pub open spec fn first_projection_failure<T>(s: Seq<Result<T, FirestoreError>>) -> Option<
    FirestoreError,
>
    decreases s.len(),
{
    if s.len() == 0 {
        None
    } else {
        match s[0] {
            Err(e) => Some(e),
            Ok(_) => first_projection_failure(s.drop_first()),
        }
    }
}

/// The projected values of a sequence of outcomes, in order, as far as
/// they succeeded.
pub open spec fn projected_values<T>(s: Seq<Result<T, FirestoreError>>) -> Seq<T>
    decreases s.len(),
{
    if s.len() == 0 {
        Seq::empty()
    } else {
        match s.last() {
            Ok(v) => projected_values(s.drop_last()).push(v),
            Err(_) => projected_values(s.drop_last()),
        }
    }
}

/// Materializes a batch of projection outcomes all-or-nothing: every
/// value in order when every projection succeeded, otherwise the first
/// projection failure.
pub fn project_documents<T>(projections: Vec<Result<T, FirestoreError>>) -> (r: Result<
    Vec<T>,
    FirestoreError,
>)
    ensures
        (match r {
            Ok(vs) => first_projection_failure(projections@) is None && vs@ == projected_values(
                projections@,
            ),
            Err(e) => first_projection_failure(projections@) == Some(e),
        }),
{
    let ghost orig: Seq<Result<T, FirestoreError>> = projections@;
    let mut rest = projections;
    let mut out: Vec<T> = Vec::new();
    let mut failure: Option<FirestoreError> = None;
    let ghost mut i: int = 0;
    while rest.len() > 0
        invariant
            0 <= i,
            i + rest.len() == orig.len(),
            rest@ == orig.subrange(i, orig.len() as int),
            (match failure {
                None => {
                    &&& out@ == projected_values(orig.subrange(0, i))
                    &&& first_projection_failure(orig) == first_projection_failure(
                        orig.subrange(i, orig.len() as int),
                    )
                },
                Some(e) => first_projection_failure(orig) == Some(e),
            }),
        decreases rest.len(),
    {
        let ghost suffix: Seq<Result<T, FirestoreError>> = orig.subrange(i, orig.len() as int);
        let item = rest.remove(0);
        proof {
            assert(item == orig[i]);
            assert(suffix[0] == orig[i]);
            assert(rest@ =~= orig.subrange(i + 1, orig.len() as int));
            assert(suffix.drop_first() =~= orig.subrange(i + 1, orig.len() as int));
            assert(orig.subrange(0, i + 1).drop_last() =~= orig.subrange(0, i));
            assert(orig.subrange(0, i + 1).last() == orig[i]);
        }
        if failure.is_none() {
            match item {
                Ok(v) => out.push(v),
                Err(e) => {
                    failure = Some(e);
                },
            }
        }
        proof {
            i = i + 1;
        }
    }
    proof {
        assert(orig.subrange(0, i) =~= orig);
        assert(orig.subrange(i, orig.len() as int).len() == 0);
    }
    match failure {
        Some(e) => Err(e),
        None => Ok(out),
    }
}

/// A failed projection is one per-item failure among others: once it
/// stands in the stream as an element, drop-errors mode discards it and
/// surface-errors mode delivers it in place, exactly as for a per-item
/// failure of the underlying query.
pub proof fn lemma_projection_failure_policy<T>(e: FirestoreError)
    ensures
        projected_element_of::<T>(Err(e)) == FirestoreStreamElement::<T>::Failed(e),
        drop_policy(FirestoreStreamElement::<T>::Failed(e)) is None,
        surface_policy(FirestoreStreamElement::<T>::Failed(e)) == Some(
            Err::<T, FirestoreError>(e),
        ),
{
}

} // verus!
