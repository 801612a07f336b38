//! Translation of logical query parameters into wire requests.
//!
//! Pure construction, no I/O: the target path defaults to the session's
//! root documents path when the caller gave no explicit parent, and the
//! session's consistency selector is re-encoded for the RPC shape at hand.
//! The query and partition-query RPCs have distinct consistency encodings;
//! a selector with no encoding for the shape at hand is a configuration
//! error.

use vstd::prelude::*;
use crate::errors::FirestoreError;
use crate::params::{FirestorePartitionQueryParams, FirestoreQueryCursor, FirestoreQueryParams};

verus! {

/// Error code attached to a consistency selector that has no encoding for
/// the RPC shape it was asked for.
pub const UNSUPPORTED_CONSISTENCY_SELECTOR: u32 = 1;

/// The session's read-consistency directive: either scoped to a running
/// transaction (identified by an opaque token) or a point-in-time read at
/// the given timestamp.
#[derive(Debug, PartialEq, Eq)]
pub enum FirestoreConsistencySelector {
    Transaction(String),
    ReadTime(u64),
}

impl Clone for FirestoreConsistencySelector {
    fn clone(&self) -> (res: Self)
        ensures
            res == *self,
    {
        match self {
            FirestoreConsistencySelector::Transaction(t) => {
                FirestoreConsistencySelector::Transaction(t.clone())
            },
            FirestoreConsistencySelector::ReadTime(t) => {
                FirestoreConsistencySelector::ReadTime(*t)
            },
        }
    }
}

/// Session state the engine reads and never writes: the default documents
/// path, the active consistency selector, and the configured retry cap.
#[derive(Debug)]
pub struct FirestoreSessionParams {
    pub documents_path: String,
    pub consistency_selector: Option<FirestoreConsistencySelector>,
    pub max_retries: usize,
}

/// Consistency encoding of the query RPC shape: it accepts both a
/// transaction scope and a point-in-time read.
#[derive(Debug, PartialEq, Eq)]
pub enum RunQueryConsistency {
    Transaction(String),
    ReadTime(u64),
}

/// Consistency encoding of the partition-query RPC shape: it accepts only
/// a point-in-time read.
#[derive(Debug, PartialEq, Eq)]
pub enum PartitionQueryConsistency {
    ReadTime(u64),
}

/// The structured query carried by both RPC shapes: the collection, the
/// opaque filter/order/projection description, and the range bounds.
#[derive(Debug, PartialEq, Eq)]
pub struct StructuredQuery {
    pub collection_id: String,
    pub filter_spec: String,
    pub start_at: Option<FirestoreQueryCursor>,
    pub end_at: Option<FirestoreQueryCursor>,
    pub limit: Option<u32>,
}

/// What the structured query of given parameters holds: the parameters'
/// own fields, carried through unchanged.
pub open spec fn structured_query_of(params: FirestoreQueryParams) -> StructuredQuery {
    StructuredQuery {
        collection_id: params.collection_id,
        filter_spec: params.filter_spec,
        start_at: params.start_at,
        end_at: params.end_at,
        limit: params.limit,
    }
}

/// The target path of a request: the explicit parent when one was given,
/// otherwise the session's default documents path.
pub open spec fn target_path_of(
    params: FirestoreQueryParams,
    session: FirestoreSessionParams,
) -> Seq<char> {
    match params.parent {
        Some(parent) => parent@,
        None => session.documents_path@,
    }
}

/// Wire request of the query RPC.
#[derive(Debug, PartialEq, Eq)]
pub struct RunQueryRequest {
    pub parent: String,
    pub consistency_selector: Option<RunQueryConsistency>,
    pub query: StructuredQuery,
}

/// Wire request of the partition-query RPC.
#[derive(Debug, PartialEq, Eq)]
pub struct PartitionQueryRequest {
    pub parent: String,
    pub consistency_selector: Option<PartitionQueryConsistency>,
    pub query: StructuredQuery,
    pub partition_count: u32,
    pub page_size: u32,
    /// Continuation token; empty on the first page.
    pub page_token: String,
}

/// Encodes the selector for the query RPC shape; every selector has an
/// encoding there.
pub fn encode_run_query_consistency(sel: &FirestoreConsistencySelector) -> (res:
    RunQueryConsistency)
    ensures
        (match *sel {
            FirestoreConsistencySelector::Transaction(t) => res == RunQueryConsistency::Transaction(
                t,
            ),
            FirestoreConsistencySelector::ReadTime(t) => res == RunQueryConsistency::ReadTime(t),
        }),
{
    match sel {
        FirestoreConsistencySelector::Transaction(t) => RunQueryConsistency::Transaction(t.clone()),
        FirestoreConsistencySelector::ReadTime(t) => RunQueryConsistency::ReadTime(*t),
    }
}

/// Encodes the selector for the partition-query RPC shape, which has no
/// encoding for a transaction scope.
pub fn encode_partition_query_consistency(sel: &FirestoreConsistencySelector) -> (res: Result<
    PartitionQueryConsistency,
    FirestoreError,
>)
    ensures
        (match *sel {
            FirestoreConsistencySelector::Transaction(_) => res == Err::<
                PartitionQueryConsistency,
                FirestoreError,
            >(FirestoreError::Configuration(UNSUPPORTED_CONSISTENCY_SELECTOR)),
            FirestoreConsistencySelector::ReadTime(t) => res == Ok::<
                PartitionQueryConsistency,
                FirestoreError,
            >(PartitionQueryConsistency::ReadTime(t)),
        }),
{
    match sel {
        FirestoreConsistencySelector::Transaction(_) => Err(
            FirestoreError::Configuration(UNSUPPORTED_CONSISTENCY_SELECTOR),
        ),
        FirestoreConsistencySelector::ReadTime(t) => Ok(PartitionQueryConsistency::ReadTime(*t)),
    }
}

/// Builds the wire request of one query: target path defaulted to the
/// session's documents path, the session's consistency selector re-encoded
/// for the query shape, and the structured query copied from the
/// parameters.
pub fn create_query_request(
    params: &FirestoreQueryParams,
    session: &FirestoreSessionParams,
) -> (res: Result<RunQueryRequest, FirestoreError>)
    ensures
        res is Ok,
        (match res {
            Ok(req) => {
                &&& req.parent@ == target_path_of(*params, *session)
                &&& req.query == structured_query_of(*params)
                &&& (match session.consistency_selector {
                    None => req.consistency_selector is None,
                    Some(FirestoreConsistencySelector::Transaction(t)) => req.consistency_selector
                        == Some(RunQueryConsistency::Transaction(t)),
                    Some(FirestoreConsistencySelector::ReadTime(t)) => req.consistency_selector
                        == Some(RunQueryConsistency::ReadTime(t)),
                })
            },
            Err(_) => false,
        }),
{
    let parent = match &params.parent {
        Some(p) => p.clone(),
        None => session.documents_path.clone(),
    };
    let consistency_selector = match &session.consistency_selector {
        Some(sel) => Some(encode_run_query_consistency(sel)),
        None => None,
    };
    let p = params.clone();
    Ok(
        RunQueryRequest {
            parent,
            consistency_selector,
            query: StructuredQuery {
                collection_id: p.collection_id,
                filter_spec: p.filter_spec,
                start_at: p.start_at,
                end_at: p.end_at,
                limit: p.limit,
            },
        },
    )
}

/// Builds the wire request of one boundary-discovery page: target path
/// defaulted as for a query, the selector re-encoded for the
/// partition-query shape (failing on a transaction scope), and an empty
/// token standing for an absent continuation token.
pub fn create_partition_query_request(
    params: &FirestorePartitionQueryParams,
    session: &FirestoreSessionParams,
) -> (res: Result<PartitionQueryRequest, FirestoreError>)
    ensures
        res is Err <==> (session.consistency_selector matches Some(
            FirestoreConsistencySelector::Transaction(_),
        )),
        (match res {
            Ok(req) => {
                &&& req.parent@ == target_path_of(params.query_params, *session)
                &&& req.query == structured_query_of(params.query_params)
                &&& req.partition_count == params.partition_count
                &&& req.page_size == params.page_size
                &&& req.page_token@ == (match params.page_token {
                    Some(t) => t@,
                    None => Seq::<char>::empty(),
                })
                &&& (match session.consistency_selector {
                    None => req.consistency_selector is None,
                    Some(FirestoreConsistencySelector::ReadTime(t)) => req.consistency_selector
                        == Some(PartitionQueryConsistency::ReadTime(t)),
                    Some(FirestoreConsistencySelector::Transaction(_)) => false,
                })
            },
            Err(e) => e == FirestoreError::Configuration(UNSUPPORTED_CONSISTENCY_SELECTOR),
        }),
{
    let consistency_selector = match &session.consistency_selector {
        Some(sel) => Some(encode_partition_query_consistency(sel)?),
        None => None,
    };
    let parent = match &params.query_params.parent {
        Some(p) => p.clone(),
        None => session.documents_path.clone(),
    };
    let page_token = match &params.page_token {
        Some(t) => t.clone(),
        None => String::new(),
    };
    let q = params.query_params.clone();
    Ok(
        PartitionQueryRequest {
            parent,
            consistency_selector,
            query: StructuredQuery {
                collection_id: q.collection_id,
                filter_spec: q.filter_spec,
                start_at: q.start_at,
                end_at: q.end_at,
                limit: q.limit,
            },
            partition_count: params.partition_count,
            page_size: params.page_size,
            page_token,
        },
    )
}

} // verus!
