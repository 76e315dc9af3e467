//! Pass-through serializer/deserializer adapter surface.
//!
//! The generic pub/sub data path only moves bytes: it has no notion of a
//! mapping or of related-identity metadata.  These adapters therefore hand
//! wire bytes through verbatim, into and out of a [`Wrapper`], and mapping-
//! aware interpretation happens later through `unwrap`, once mapping and
//! metadata are available.
use vstd::prelude::*;
use core::marker::PhantomData;

use crate::cdr::RepresentationIdentifier;
use crate::wrappers::{ReadError, Wrapper};

verus! {

/// Deserializer half of the adapter pair: declares which representation
/// identifiers it accepts and hands the received bytes through unchanged.
pub struct ServiceDeserializerAdapter<RW> {
    phantom: PhantomData<RW>,
}

/// Serializer half of the adapter pair: emits a wrapper's owned bytes
/// verbatim under a fixed output representation.
pub struct ServiceSerializerAdapter<RW> {
    phantom: PhantomData<RW>,
}

impl<RW: Wrapper> ServiceDeserializerAdapter<RW> {
    /// The representation identifiers this adapter accepts on decode: the
    /// big- and little-endian variants of the one binary encoding scheme.
    pub fn supported_encodings() -> (r: [RepresentationIdentifier; 2])
        ensures
            r@ == seq![
                RepresentationIdentifier::CdrBe,
                RepresentationIdentifier::CdrLe,
            ],
    {
        let r = [RepresentationIdentifier::CdrBe, RepresentationIdentifier::CdrLe];
        proof {
            assert(r@ =~= seq![
                RepresentationIdentifier::CdrBe,
                RepresentationIdentifier::CdrLe,
            ]);
        }
        r
    }

    /// The decoded value already is the wrapper; hand it through unchanged.
    pub fn transform_decoded(decoded: RW) -> (r: RW)
        ensures
            r == decoded,
    {
        decoded
    }
}

/// Decoder the generic data path invokes with raw bytes: it builds a wrapper
/// that holds those bytes verbatim, deferring interpretation.
#[derive(Clone)]
pub struct WrapperDecoder;

impl WrapperDecoder {
    pub fn decode_bytes<RW: Wrapper>(self, input_bytes: &[u8],
        encoding: RepresentationIdentifier) -> (r: Result<RW, ReadError>)
        ensures
            r matches Ok(w) && w.wire() == input_bytes@ && w.rep() == encoding,
    {
        Ok(RW::from_bytes_and_ri(input_bytes, encoding))
    }
}

impl<RW: Wrapper> ServiceSerializerAdapter<RW> {
    /// Every outgoing message is tagged little-endian.
    pub fn output_encoding() -> (r: RepresentationIdentifier)
        ensures
            r == RepresentationIdentifier::CdrLe,
    {
        RepresentationIdentifier::CdrLe
    }

    /// A wrapper's owned bytes, verbatim.
    pub fn to_bytes(value: &RW) -> (r: Vec<u8>)
        ensures
            r@ == value.wire(),
    {
        value.bytes()
    }
}

} // verus!
