//! Result-stream adapters.
//!
//! A raw result stream yields one element per page entry: a found item, an
//! empty "no document" keep-alive marker, or a per-item failure. Two
//! toggles shape what a consumer sees. Streaming drop-errors mode discards
//! failures and empty markers, keeping survivors in order; streaming
//! surface-errors mode keeps failures in place as error elements and still
//! discards empty markers; batch mode materializes everything and fails
//! the whole call on the first per-item failure — batch callers want
//! all-or-nothing, stream callers want partial delivery.

use vstd::prelude::*;
use crate::errors::FirestoreError;

verus! {

/// One element of a raw result stream.
#[derive(Debug, PartialEq, Eq)]
pub enum FirestoreStreamElement<T> {
    /// A delivered item.
    Found(T),
    /// A "no document" page entry: a keep-alive marker, neither data nor
    /// a failure.
    Empty,
    /// A per-item failure.
    Failed(FirestoreError),
}

/// What drop-errors mode keeps of one element: the item, if the element
/// delivered one.
pub open spec fn drop_policy<T>(el: FirestoreStreamElement<T>) -> Option<T> {
    match el {
        FirestoreStreamElement::Found(v) => Some(v),
        FirestoreStreamElement::Empty => None,
        FirestoreStreamElement::Failed(_) => None,
    }
}

/// What surface-errors mode keeps of one element: the item or the failure;
/// empty markers are still nothing.
pub open spec fn surface_policy<T>(el: FirestoreStreamElement<T>) -> Option<
    Result<T, FirestoreError>,
> {
    match el {
        FirestoreStreamElement::Found(v) => Some(Ok(v)),
        FirestoreStreamElement::Empty => None,
        FirestoreStreamElement::Failed(e) => Some(Err(e)),
    }
}

/// The survivors of a whole stream in drop-errors mode, in order.
pub open spec fn dropped_seq<T>(s: Seq<FirestoreStreamElement<T>>) -> Seq<T>
    decreases s.len(),
{
    if s.len() == 0 {
        Seq::empty()
    } else {
        match drop_policy(s.last()) {
            Some(v) => dropped_seq(s.drop_last()).push(v),
            None => dropped_seq(s.drop_last()),
        }
    }
}

/// The output of a whole stream in surface-errors mode, in order.
pub open spec fn surfaced_seq<T>(s: Seq<FirestoreStreamElement<T>>) -> Seq<
    Result<T, FirestoreError>,
>
    decreases s.len(),
{
    if s.len() == 0 {
        Seq::empty()
    } else {
        match surface_policy(s.last()) {
            Some(r) => surfaced_seq(s.drop_last()).push(r),
            None => surfaced_seq(s.drop_last()),
        }
    }
}

/// Adapts one element in drop-errors mode: failures and empty markers
/// vanish, an item survives.
pub fn adapt_element_dropping<T>(el: FirestoreStreamElement<T>) -> (r: Option<T>)
    ensures
        r == drop_policy(el),
{
    match el {
        FirestoreStreamElement::Found(v) => Some(v),
        FirestoreStreamElement::Empty => None,
        FirestoreStreamElement::Failed(_) => None,
    }
}

/// Adapts one element in surface-errors mode: empty markers vanish,
/// failures survive in place as error elements.
pub fn adapt_element_surfacing<T>(el: FirestoreStreamElement<T>) -> (r: Option<
    Result<T, FirestoreError>,
>)
    ensures
        r == surface_policy(el),
{
    match el {
        FirestoreStreamElement::Found(v) => Some(Ok(v)),
        FirestoreStreamElement::Empty => None,
        FirestoreStreamElement::Failed(e) => Some(Err(e)),
    }
}

/// Materializes a whole stream in drop-errors mode: errors and empty
/// markers vanish, the order of survivors is preserved.
pub fn collect_dropping<T>(elements: Vec<FirestoreStreamElement<T>>) -> (r: Vec<T>)
    ensures
        r@ == dropped_seq(elements@),
{
    let ghost orig: Seq<FirestoreStreamElement<T>> = elements@;
    let mut rest = elements;
    let mut out: Vec<T> = Vec::new();
    let ghost mut i: int = 0;
    while rest.len() > 0
        invariant
            0 <= i,
            i + rest.len() == orig.len(),
            rest@ == orig.subrange(i, orig.len() as int),
            out@ == dropped_seq(orig.subrange(0, i)),
        decreases rest.len(),
    {
        let el = rest.remove(0);
        proof {
            assert(el == orig[i]);
            assert(rest@ =~= orig.subrange(i + 1, orig.len() as int));
            assert(orig.subrange(0, i + 1).drop_last() =~= orig.subrange(0, i));
            assert(orig.subrange(0, i + 1).last() == orig[i]);
        }
        match adapt_element_dropping(el) {
            Some(v) => out.push(v),
            None => (),
        }
        proof {
            i = i + 1;
        }
    }
    proof {
        assert(orig.subrange(0, i) =~= orig);
    }
    out
}

/// Materializes a whole stream in surface-errors mode: empty markers
/// vanish, errors survive in place.
pub fn collect_surfacing<T>(elements: Vec<FirestoreStreamElement<T>>) -> (r: Vec<
    Result<T, FirestoreError>,
>)
    ensures
        r@ == surfaced_seq(elements@),
{
    let ghost orig: Seq<FirestoreStreamElement<T>> = elements@;
    let mut rest = elements;
    let mut out: Vec<Result<T, FirestoreError>> = Vec::new();
    let ghost mut i: int = 0;
    while rest.len() > 0
        invariant
            0 <= i,
            i + rest.len() == orig.len(),
            rest@ == orig.subrange(i, orig.len() as int),
            out@ == surfaced_seq(orig.subrange(0, i)),
        decreases rest.len(),
    {
        let el = rest.remove(0);
        proof {
            assert(el == orig[i]);
            assert(rest@ =~= orig.subrange(i + 1, orig.len() as int));
            assert(orig.subrange(0, i + 1).drop_last() =~= orig.subrange(0, i));
            assert(orig.subrange(0, i + 1).last() == orig[i]);
        }
        match adapt_element_surfacing(el) {
            Some(r) => out.push(r),
            None => (),
        }
        proof {
            i = i + 1;
        }
    }
    proof {
        assert(orig.subrange(0, i) =~= orig);
    }
    out
}

/// The first per-item failure of a raw stream, when there is one.
pub open spec fn first_failure<T>(s: Seq<FirestoreStreamElement<T>>) -> Option<FirestoreError>
    decreases s.len(),
{
    if s.len() == 0 {
        None
    } else {
        match s[0] {
            FirestoreStreamElement::Failed(e) => Some(e),
            _ => first_failure(s.drop_first()),
        }
    }
}

/// Materializes a whole stream in batch mode: empty markers are
/// discarded, and the whole call fails with the first per-item failure if
/// there is any — all-or-nothing, unlike streaming drop-errors mode.
pub fn collect_batch<T>(elements: Vec<FirestoreStreamElement<T>>) -> (r: Result<
    Vec<T>,
    FirestoreError,
>)
    ensures
        (match r {
            Ok(docs) => first_failure(elements@) is None && docs@ == dropped_seq(elements@),
            Err(e) => first_failure(elements@) == Some(e),
        }),
{
    let ghost orig: Seq<FirestoreStreamElement<T>> = elements@;
    let mut rest = elements;
    let mut out: Vec<T> = Vec::new();
    let mut failure: Option<FirestoreError> = None;
    let ghost mut i: int = 0;
    while rest.len() > 0
        invariant
            0 <= i,
            i + rest.len() == orig.len(),
            rest@ == orig.subrange(i, orig.len() as int),
            (match failure {
                None => {
                    &&& out@ == dropped_seq(orig.subrange(0, i))
                    &&& first_failure(orig) == first_failure(
                        orig.subrange(i, orig.len() as int),
                    )
                },
                Some(e) => first_failure(orig) == Some(e),
            }),
        decreases rest.len(),
    {
        let ghost suffix: Seq<FirestoreStreamElement<T>> = orig.subrange(i, orig.len() as int);
        let el = rest.remove(0);
        proof {
            assert(el == orig[i]);
            assert(suffix[0] == orig[i]);
            assert(rest@ =~= orig.subrange(i + 1, orig.len() as int));
            assert(suffix.drop_first() =~= orig.subrange(i + 1, orig.len() as int));
            assert(orig.subrange(0, i + 1).drop_last() =~= orig.subrange(0, i));
            assert(orig.subrange(0, i + 1).last() == orig[i]);
        }
        if failure.is_none() {
            match el {
                FirestoreStreamElement::Found(v) => out.push(v),
                FirestoreStreamElement::Empty => (),
                FirestoreStreamElement::Failed(e) => {
                    failure = Some(e);
                },
            }
        }
        proof {
            i = i + 1;
        }
    }
    proof {
        assert(orig.subrange(0, i) =~= orig);
        assert(orig.subrange(i, orig.len() as int).len() == 0);
    }
    match failure {
        Some(e) => Err(e),
        None => Ok(out),
    }
}

} // verus!
