//! Query-execution core for a document-database client.
//!
//! The library holds the verified decision logic of the query engine:
//! building wire requests from logical query parameters, the bounded-retry
//! policy, the drop-errors / surface-errors stream adapters, typed-object
//! projection policy, the cursor-pagination protocol used to discover
//! partition boundaries, and the planner that turns discovered cursors into
//! range-bounded sub-queries with a bounded-parallelism admission gate.
//!
//! Network transport, asynchronous plumbing and serialization live outside
//! the library; they hand plain values in and take plain values back.

pub mod errors;
pub mod params;
pub mod request;
pub mod retry;
pub mod stream;
pub mod partition;
pub mod projection;
pub mod query;
pub mod pagination;
