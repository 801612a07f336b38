//! Cursor pagination: discovery of partition boundaries.
//!
//! Boundary discovery repeatedly issues a partition-query page request
//! carrying the current continuation token — absent on the first page.
//! Each successful page yields zero or more cursors and, when its
//! next-page token is non-empty, a resumed state; an empty token ends the
//! pagination after that page. A page-fetch failure emits one error
//! element and ends the pagination permanently; it is not retried at this
//! layer.
//!
//! The protocol is modeled over a page trace: the outcome each page fetch
//! would have. [`paginate_partition_cursors`] runs the whole protocol over
//! a trace and returns both the requests it issued — whose continuation
//! tokens chain through the trace — and the flattened cursor sequence.

use vstd::prelude::*;
use crate::errors::FirestoreError;
use crate::params::{FirestorePartitionQueryParams, FirestoreQueryCursor};
use crate::request::{
    create_partition_query_request, structured_query_of, target_path_of,
    FirestoreConsistencySelector, FirestoreSessionParams, PartitionQueryConsistency,
    PartitionQueryRequest, UNSUPPORTED_CONSISTENCY_SELECTOR,
};

verus! {

/// One page of the boundary-discovery response: the cursors of the page
/// and the continuation token of the next one — empty when this page is
/// the last.
#[derive(Debug, PartialEq, Eq)]
pub struct FirestorePartitionPage {
    pub cursors: Vec<FirestoreQueryCursor>,
    pub next_page_token: String,
}

/// The cursors of one page as elements of the output sequence.
pub open spec fn page_cursor_results(cs: Seq<FirestoreQueryCursor>) -> Seq<
    Result<FirestoreQueryCursor, FirestoreError>,
> {
    cs.map_values(|c: FirestoreQueryCursor| Ok(c))
}

/// The whole output of the pagination over a page trace: pages flatten in
/// arrival order until a page with an empty next-page token, a failure —
/// one error element, then the end — or the end of the trace.
pub open spec fn flattened_pages(pages: Seq<Result<FirestorePartitionPage, FirestoreError>>) -> Seq<
    Result<FirestoreQueryCursor, FirestoreError>,
>
    decreases pages.len(),
{
    if pages.len() == 0 {
        Seq::empty()
    } else {
        match pages[0] {
            Err(e) => seq![Err(e)],
            Ok(p) => page_cursor_results(p.cursors@) + (if p.next_page_token@.len() == 0 {
                Seq::empty()
            } else {
                flattened_pages(pages.drop_first())
            }),
        }
    }
}

/// How many pages the pagination fetches from a page trace: one per page
/// up to and including the first failure or empty-token page.
pub open spec fn pages_consumed(pages: Seq<Result<FirestorePartitionPage, FirestoreError>>) -> int
    decreases pages.len(),
{
    if pages.len() == 0 {
        0
    } else {
        match pages[0] {
            Err(_) => 1,
            Ok(p) => 1 + (if p.next_page_token@.len() == 0 {
                0
            } else {
                pages_consumed(pages.drop_first())
            }),
        }
    }
}

/// The continuation token the first request carries: the one the caller
/// resumed with, or empty.
pub open spec fn initial_page_token(params: FirestorePartitionQueryParams) -> Seq<char> {
    match params.page_token {
        Some(t) => t@,
        None => Seq::<char>::empty(),
    }
}

/// Appends the cursors of one page to the output, each as a success
/// element.
fn push_cursor_results(
    out: &mut Vec<Result<FirestoreQueryCursor, FirestoreError>>,
    cursors: Vec<FirestoreQueryCursor>,
)
    ensures
        final(out)@ == old(out)@ + page_cursor_results(cursors@),
{
    let ghost orig: Seq<FirestoreQueryCursor> = cursors@;
    let mut rest = cursors;
    let ghost mut i: int = 0;
    while rest.len() > 0
        invariant
            0 <= i,
            i + rest.len() == orig.len(),
            rest@ == orig.subrange(i, orig.len() as int),
            out@ == old(out)@ + page_cursor_results(orig.subrange(0, i)),
        decreases rest.len(),
    {
        let c = rest.remove(0);
        proof {
            assert(c == orig[i]);
            assert(rest@ =~= orig.subrange(i + 1, orig.len() as int));
        }
        out.push(Ok(c));
        proof {
            i = i + 1;
            assert(out@ =~= old(out)@ + page_cursor_results(orig.subrange(0, i)));
        }
    }
    proof {
        assert(orig.subrange(0, i) =~= orig);
        assert(out@ =~= old(out)@ + page_cursor_results(orig));
    }
}

/// One step of the pagination: what a page-fetch outcome emits and
/// whether — and with which token — the pagination goes on. A successful
/// page emits its cursors and continues exactly when its next-page token
/// is non-empty; a failure emits one error element and ends the
/// pagination.
pub fn pagination_step(
    params: FirestorePartitionQueryParams,
    outcome: Result<FirestorePartitionPage, FirestoreError>,
) -> (r: (
    Vec<Result<FirestoreQueryCursor, FirestoreError>>,
    Option<FirestorePartitionQueryParams>,
))
    ensures
        (match outcome {
            Ok(page) => {
                &&& r.0@ == page_cursor_results(page.cursors@)
                &&& (page.next_page_token@.len() == 0 ==> r.1 is None)
                &&& (page.next_page_token@.len() > 0 ==> r.1 == Some(
                    FirestorePartitionQueryParams {
                        page_token: Some(page.next_page_token),
                        ..params
                    },
                ))
            },
            Err(e) => {
                &&& r.0@ == seq![Err::<FirestoreQueryCursor, FirestoreError>(e)]
                &&& r.1 is None
            },
        }),
{
    match outcome {
        Ok(page) => {
            let FirestorePartitionPage { cursors, next_page_token } = page;
            let ghost cs: Seq<FirestoreQueryCursor> = cursors@;
            let mut emitted: Vec<Result<FirestoreQueryCursor, FirestoreError>> = Vec::new();
            push_cursor_results(&mut emitted, cursors);
            proof {
                assert(emitted@ =~= page_cursor_results(cs));
            }
            if next_page_token.as_str().is_empty() {
                (emitted, None)
            } else {
                (emitted, Some(params.with_page_token(next_page_token)))
            }
        },
        Err(e) => {
            let mut emitted: Vec<Result<FirestoreQueryCursor, FirestoreError>> = Vec::new();
            emitted.push(Err(e));
            proof {
                assert(emitted@ =~= seq![Err::<FirestoreQueryCursor, FirestoreError>(e)]);
            }
            (emitted, None)
        },
    }
}

/// Runs the whole boundary-discovery pagination over a page trace.
///
/// Fails — before any page is fetched — exactly when the session's
/// consistency selector has no partition-query encoding. Otherwise the
/// returned requests all target the parameters' collection with the
/// defaulted parent path, carry the partitioning knobs unchanged, and
/// their continuation tokens chain through the trace, starting from the
/// caller's token; the returned sequence is the trace's flattening:
/// cursors in page order, one error element at a failure, ending at the
/// first empty-token page.
pub fn paginate_partition_cursors(
    params: &FirestorePartitionQueryParams,
    session: &FirestoreSessionParams,
    pages: Vec<Result<FirestorePartitionPage, FirestoreError>>,
) -> (r: Result<
    (Vec<PartitionQueryRequest>, Vec<Result<FirestoreQueryCursor, FirestoreError>>),
    FirestoreError,
>)
    ensures
        r is Err <==> (session.consistency_selector matches Some(
            FirestoreConsistencySelector::Transaction(_),
        )),
        (match r {
            Ok(rv) => {
                &&& rv.1@ == flattened_pages(pages@)
                &&& rv.0@.len() == pages_consumed(pages@)
                &&& rv.0@.len() > 0 ==> rv.0@[0].page_token@ == initial_page_token(*params)
                &&& forall|k: int|
                    1 <= k < rv.0@.len() ==> ((#[trigger] pages@[k - 1]) matches Ok(p)
                        && rv.0@[k].page_token@ == p.next_page_token@)
                &&& forall|k: int|
                    0 <= k < rv.0@.len() ==> {
                        &&& (#[trigger] rv.0@[k]).parent@ == target_path_of(
                            params.query_params,
                            *session,
                        )
                        &&& rv.0@[k].query == structured_query_of(params.query_params)
                        &&& rv.0@[k].partition_count == params.partition_count
                        &&& rv.0@[k].page_size == params.page_size
                        &&& (match session.consistency_selector {
                            None => rv.0@[k].consistency_selector is None,
                            Some(FirestoreConsistencySelector::ReadTime(t)) => rv.0@[k].consistency_selector
                                == Some(PartitionQueryConsistency::ReadTime(t)),
                            Some(FirestoreConsistencySelector::Transaction(_)) => false,
                        })
                    }
            },
            Err(e) => e == FirestoreError::Configuration(UNSUPPORTED_CONSISTENCY_SELECTOR),
        }),
{
    let ghost orig: Seq<Result<FirestorePartitionPage, FirestoreError>> = pages@;
    let mut rest = pages;
    let mut reqs: Vec<PartitionQueryRequest> = Vec::new();
    let mut out: Vec<Result<FirestoreQueryCursor, FirestoreError>> = Vec::new();
    let mut current = params.clone();
    let mut continuing = true;
    let ghost mut i: int = 0;
    if (match &session.consistency_selector {
        Some(FirestoreConsistencySelector::Transaction(_)) => true,
        _ => false,
    }) {
        return Err(FirestoreError::Configuration(UNSUPPORTED_CONSISTENCY_SELECTOR));
    }
    while continuing && rest.len() > 0
        invariant
            !(session.consistency_selector matches Some(
                FirestoreConsistencySelector::Transaction(_),
            )),
            0 <= i,
            i + rest.len() == orig.len(),
            rest@ == orig.subrange(i, orig.len() as int),
            continuing ==> flattened_pages(orig) == out@ + flattened_pages(
                orig.subrange(i, orig.len() as int),
            ),
            !continuing ==> out@ == flattened_pages(orig),
            continuing ==> reqs.len() == i && pages_consumed(orig) == i + pages_consumed(
                orig.subrange(i, orig.len() as int),
            ),
            !continuing ==> reqs.len() == pages_consumed(orig),
            continuing ==> {
                &&& current.query_params == params.query_params
                &&& current.partition_count == params.partition_count
                &&& current.page_size == params.page_size
                &&& (i == 0 ==> current.page_token == params.page_token)
                &&& (i > 0 ==> ((#[trigger] orig[i - 1]) matches Ok(p) && current.page_token
                    == Some(p.next_page_token)))
            },
            reqs.len() > 0 ==> reqs@[0].page_token@ == initial_page_token(*params),
            forall|k: int|
                1 <= k < reqs.len() ==> ((#[trigger] orig[k - 1]) matches Ok(p)
                    && reqs@[k].page_token@ == p.next_page_token@),
            forall|k: int|
                0 <= k < reqs.len() ==> {
                    &&& (#[trigger] reqs@[k]).parent@ == target_path_of(
                        params.query_params,
                        *session,
                    )
                    &&& reqs@[k].query == structured_query_of(params.query_params)
                    &&& reqs@[k].partition_count == params.partition_count
                    &&& reqs@[k].page_size == params.page_size
                    &&& (match session.consistency_selector {
                        None => reqs@[k].consistency_selector is None,
                        Some(FirestoreConsistencySelector::ReadTime(t)) => reqs@[k].consistency_selector
                            == Some(PartitionQueryConsistency::ReadTime(t)),
                        Some(FirestoreConsistencySelector::Transaction(_)) => false,
                    })
                },
        decreases rest.len(),
    {
        let ghost suffix: Seq<Result<FirestorePartitionPage, FirestoreError>> = orig.subrange(
            i,
            orig.len() as int,
        );
        let req = match create_partition_query_request(&current, session) {
            Ok(q) => q,
            Err(e) => {
                proof {
                    assert(false);
                }
                return Err(e);
            },
        };
        reqs.push(req);
        let outcome = rest.remove(0);
        proof {
            assert(outcome == orig[i]);
            assert(suffix[0] == orig[i]);
            assert(rest@ =~= orig.subrange(i + 1, orig.len() as int));
            assert(suffix.drop_first() =~= orig.subrange(i + 1, orig.len() as int));
        }
        match outcome {
            Err(e) => {
                out.push(Err(e));
                continuing = false;
                proof {
                    assert(flattened_pages(suffix) =~= seq![
                        Err::<FirestoreQueryCursor, FirestoreError>(e),
                    ]);
                    assert(out@ =~= flattened_pages(orig));
                }
            },
            Ok(page) => {
                let FirestorePartitionPage { cursors, next_page_token } = page;
                push_cursor_results(&mut out, cursors);
                if next_page_token.as_str().is_empty() {
                    continuing = false;
                } else {
                    current = current.with_page_token(next_page_token);
                }
            },
        }
        proof {
            i = i + 1;
        }
    }
    proof {
        if continuing {
            assert(orig.subrange(i, orig.len() as int).len() == 0);
            assert(out@ =~= flattened_pages(orig));
        }
    }
    Ok((reqs, out))
}

} // verus!
