//! Logical query parameters, cursors and partitions.
//!
//! A query is described by plain values: the collection, an optional
//! explicit parent path, an opaque filter/order/projection description, and
//! optional range bounds given as cursors. Cursors are opaque position
//! markers returned by the server; a partition is a resolved sub-range of
//! the keyspace carrying the bounds actually used for its sub-query.

use vstd::prelude::*;

verus! {

/// An opaque position marker bounding a partition of a result set.
/// Comparable only by its encoding, never interpreted by the engine.
#[derive(Debug, PartialEq, Eq)]
pub struct FirestoreQueryCursor {
    pub encoded: String,
}

impl Clone for FirestoreQueryCursor {
    fn clone(&self) -> (res: Self)
        ensures
            res == *self,
    {
        FirestoreQueryCursor { encoded: self.encoded.clone() }
    }
}

/// Logical description of one query: where it runs and which range of the
/// keyspace it covers. The filter/order/projection description is opaque to
/// the engine and carried through unchanged.
#[derive(Debug, PartialEq, Eq)]
pub struct FirestoreQueryParams {
    pub collection_id: String,
    /// Explicit parent path; when absent the session's default documents
    /// path is used as the request target.
    pub parent: Option<String>,
    /// Opaque filter/order/projection description.
    pub filter_spec: String,
    /// Inclusive lower range bound, when set.
    pub start_at: Option<FirestoreQueryCursor>,
    /// Exclusive upper range bound, when set.
    pub end_at: Option<FirestoreQueryCursor>,
    /// Page size limit, when set.
    pub limit: Option<u32>,
}

impl Clone for FirestoreQueryParams {
    fn clone(&self) -> (res: Self)
        ensures
            res == *self,
    {
        FirestoreQueryParams {
            collection_id: self.collection_id.clone(),
            parent: self.parent.clone(),
            filter_spec: self.filter_spec.clone(),
            start_at: self.start_at.clone(),
            end_at: self.end_at.clone(),
            limit: self.limit,
        }
    }
}

impl FirestoreQueryParams {
    /// Replaces the lower range bound with the given one (possibly none).
    pub fn mopt_start_at(&mut self, start_at: Option<FirestoreQueryCursor>)
        ensures
            *final(self) == (FirestoreQueryParams { start_at, ..*old(self) }),
    {
        self.start_at = start_at;
    }

    /// Replaces the upper range bound with the given one (possibly none).
    pub fn mopt_end_at(&mut self, end_at: Option<FirestoreQueryCursor>)
        ensures
            *final(self) == (FirestoreQueryParams { end_at, ..*old(self) }),
    {
        self.end_at = end_at;
    }
}

/// Query parameters together with the partitioning knobs: the requested
/// number of partitions, the page size of the boundary-discovery RPC, and
/// the continuation token carried while that RPC is paginated.
#[derive(Debug, PartialEq, Eq)]
pub struct FirestorePartitionQueryParams {
    pub query_params: FirestoreQueryParams,
    pub partition_count: u32,
    pub page_size: u32,
    /// Continuation token of the boundary-discovery pagination; absent on
    /// the first page.
    pub page_token: Option<String>,
}

impl Clone for FirestorePartitionQueryParams {
    fn clone(&self) -> (res: Self)
        ensures
            res == *self,
    {
        FirestorePartitionQueryParams {
            query_params: self.query_params.clone(),
            partition_count: self.partition_count,
            page_size: self.page_size,
            page_token: self.page_token.clone(),
        }
    }
}

impl FirestorePartitionQueryParams {
    /// The same parameters, resumed at the given continuation token.
    pub fn with_page_token(self, token: String) -> (res: Self)
        ensures
            res == (FirestorePartitionQueryParams { page_token: Some(token), ..self }),
    {
        FirestorePartitionQueryParams { page_token: Some(token), ..self }
    }
}

/// A resolved half-open range of the keyspace: the bounds actually used for
/// one range sub-query. A partition with neither bound stands for the whole
/// collection.
#[derive(Debug, PartialEq, Eq)]
pub struct FirestorePartition {
    pub start_at: Option<FirestoreQueryCursor>,
    pub end_at: Option<FirestoreQueryCursor>,
}

impl Clone for FirestorePartition {
    fn clone(&self) -> (res: Self)
        ensures
            res == *self,
    {
        FirestorePartition { start_at: self.start_at.clone(), end_at: self.end_at.clone() }
    }
}

impl FirestorePartition {
    /// The whole-collection partition: no bound on either side.
    pub fn new() -> (res: Self)
        ensures
            res.start_at is None,
            res.end_at is None,
    {
        FirestorePartition { start_at: None, end_at: None }
    }

    /// The same partition with its lower bound replaced.
    pub fn opt_start_at(self, start_at: Option<FirestoreQueryCursor>) -> (res: Self)
        ensures
            res == (FirestorePartition { start_at, ..self }),
    {
        FirestorePartition { start_at, ..self }
    }

    /// The same partition with its upper bound replaced.
    pub fn opt_end_at(self, end_at: Option<FirestoreQueryCursor>) -> (res: Self)
        ensures
            res == (FirestorePartition { end_at, ..self }),
    {
        FirestorePartition { end_at, ..self }
    }
}

/// A server-returned record, treated as an indivisible unit: a name and
/// an opaque encoded body. Its field representation is outside the
/// engine's scope; projection to a typed value reads the body outside the
/// engine.
#[derive(Debug, PartialEq, Eq)]
pub struct FirestoreDocument {
    pub name: String,
    /// Opaque encoded body of the record.
    pub data: String,
}

impl Clone for FirestoreDocument {
    fn clone(&self) -> (res: Self)
        ensures
            res == *self,
    {
        FirestoreDocument { name: self.name.clone(), data: self.data.clone() }
    }
}

} // verus!
