//! Decoding of knowledge-graph space events found in blockchain blocks into
//! normalized, strongly-typed output records, and their per-block aggregation.

pub mod aggregate;
pub mod block;
pub mod entries;
pub mod extract;
pub mod helpers;
pub mod roles;
pub mod rpc;
pub mod schema;
pub mod store;
