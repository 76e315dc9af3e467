//! Request/response wrapper and correlation-id codec for an RPC layer carried
//! over a publish-subscribe transport.
//!
//! Three mutually incompatible wire conventions ("mappings") exist for
//! encoding a request/response pair and for correlating a response back to
//! the request that caused it.  This crate implements the byte-level header
//! codecs for each mapping, the correlation-id reconstruction rules
//! (including the cross-mapping identifier splicing used by one peer
//! implementation), and the pass-through serializer/deserializer adapter
//! surface, all with verified contracts.
use vstd::prelude::*;

pub mod adapters;
pub mod cdr;
pub mod headers;
pub mod request_id;
pub mod round_trip;
pub mod wrappers;

verus! {

/// A wire-format mapping: one of the three fixed conventions for encoding a
/// request/response pair and carrying its correlation identifier.
#[derive(Clone, Copy, Debug, PartialEq, Eq, Structural)]
pub enum ServiceMapping {
    Basic,
    Enhanced,
    Cyclone,
}

} // verus!
