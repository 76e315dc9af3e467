//! Request/response wrappers: mapping-aware wrap (encode) and unwrap
//! (decode) of the byte payload, threading the header codecs and the
//! correlation-id reconstruction policy of each mapping.
//!
//! A wrapper owns the wire bytes of one message: the mapping's header, if it
//! has one, followed by the serialized payload value.  Wrapping builds those
//! bytes from a correlation id and an already-serialized payload; unwrapping
//! splits the header back off and reconstructs the correlation id from the
//! header and from the transport metadata, as the mapping prescribes.
use vstd::prelude::*;
use vstd::slice::{slice_subrange, slice_to_vec};

use crate::cdr::{seqnum_i64_at, RepresentationIdentifier};
use crate::headers::{
    basic_reply_header_bytes, basic_reply_parses, basic_request_header_bytes,
    basic_request_needed_len, basic_request_parses, cyclone_parses, cyclone_seqnum_at,
    BasicReplyHeader, BasicRequestHeader, CycloneHeader,
};
use crate::request_id::{Guid, RmwRequestId, SampleIdentity, SequenceNumber};
use crate::ServiceMapping;

verus! {

/// Why a wrapper failed to decode.
#[derive(Clone, Copy, Debug, PartialEq, Eq, Structural)]
pub enum ReadError {
    /// The buffer holds `actual` bytes where the mapping's fixed header
    /// layout needs `expected`.
    TooShort { mapping: ServiceMapping, expected: u64, actual: u64 },
    /// An Enhanced-mapping response arrived without the related-sample
    /// identity that alone can carry its correlation id.
    MissingRelatedIdentity,
}

/// Metadata the transport attaches to every delivered sample: the sender's
/// endpoint identifier, the sample's own identity, and optionally the
/// identity of the sample this one answers.
#[derive(Clone, Copy, Debug, PartialEq, Eq)]
pub struct MessageInfo {
    pub writer_guid: Guid,
    pub sample_identity: SampleIdentity,
    pub related_sample_identity: Option<SampleIdentity>,
}

impl MessageInfo {
    pub fn new(writer_guid: Guid, sample_identity: SampleIdentity, related_sample_identity: Option<
        SampleIdentity>) -> (r: MessageInfo)
        ensures
            r.writer_guid == writer_guid,
            r.sample_identity == sample_identity,
            r.related_sample_identity == related_sample_identity,
    {
        MessageInfo { writer_guid, sample_identity, related_sample_identity }
    }

    pub fn writer_guid(&self) -> (r: Guid)
        ensures
            r == self.writer_guid,
    {
        self.writer_guid
    }

    pub fn sample_identity(&self) -> (r: SampleIdentity)
        ensures
            r == self.sample_identity,
    {
        self.sample_identity
    }

    pub fn related_sample_identity(&self) -> (r: Option<SampleIdentity>)
        ensures
            r == self.related_sample_identity,
    {
        self.related_sample_identity
    }
}

/// The sample identity a correlation id converts to for the Basic headers.
pub open spec fn request_id_identity(r_id: RmwRequestId) -> SampleIdentity {
    SampleIdentity { writer_guid: r_id.writer_guid, sequence_number: r_id.sequence_number }
}

/// The Cyclone header bytes a correlation id produces: the low half of its
/// endpoint identifier, then the sequence number halves as 32-bit fields.
pub open spec fn cyclone_prefix(r_id: RmwRequestId, repr: RepresentationIdentifier) -> Seq<u8> {
    r_id.writer_guid.bytes@.subrange(8, 16) + crate::cdr::u32_bytes(crate::cdr::i32_bits(
        r_id.sequence_number.high), repr) + crate::cdr::u32_bytes(r_id.sequence_number.low, repr)
}

/// The full wire bytes that wrapping a request produces.
pub open spec fn request_wire(mapping: ServiceMapping, r_id: RmwRequestId,
    repr: RepresentationIdentifier, payload: Seq<u8>) -> Seq<u8> {
    match mapping {
        ServiceMapping::Basic => basic_request_header_bytes(request_id_identity(r_id),
            Seq::<u8>::empty(), repr) + payload,
        ServiceMapping::Enhanced => payload,
        ServiceMapping::Cyclone => cyclone_prefix(r_id, repr) + payload,
    }
}

/// The full wire bytes that wrapping a response produces.
pub open spec fn response_wire(mapping: ServiceMapping, r_id: RmwRequestId,
    repr: RepresentationIdentifier, payload: Seq<u8>) -> Seq<u8> {
    match mapping {
        ServiceMapping::Basic => basic_reply_header_bytes(request_id_identity(r_id), 0, repr)
            + payload,
        ServiceMapping::Enhanced => payload,
        ServiceMapping::Cyclone => cyclone_prefix(r_id, repr) + payload,
    }
}

/// The correlation id an Enhanced-mapping request yields: the related-sample
/// identity when the sender supplied one, else the sample's own identity;
/// and when the chosen identity carries the UNKNOWN sentinel as its sequence
/// number, that number is patched from the sample's own identity, since the
/// sentinel cannot name the real request sample.
pub open spec fn enhanced_request_correlation(info: MessageInfo) -> RmwRequestId {
    let base = match info.related_sample_identity {
        Some(rsi) => rsi,
        None => info.sample_identity,
    };
    RmwRequestId {
        writer_guid: base.writer_guid,
        sequence_number: if base.sequence_number.spec_is_unknown() {
            info.sample_identity.sequence_number
        } else {
            base.sequence_number
        },
    }
}

/// Interface the pass-through serializer/deserializer adapters use: a
/// wrapper is a value that holds wire bytes verbatim, tagged with the
/// representation identifier they arrived or leave under.
pub trait Wrapper: Sized {
    /// The wire bytes this wrapper owns.
    spec fn wire(&self) -> Seq<u8>;

    /// The representation identifier the bytes are tagged with.
    spec fn rep(&self) -> RepresentationIdentifier;

    /// Hold `input_bytes` verbatim, tagged with `encoding`; no
    /// interpretation happens until `unwrap`, once mapping and metadata are
    /// available.
    fn from_bytes_and_ri(input_bytes: &[u8], encoding: RepresentationIdentifier) -> (r: Self)
        ensures
            r.wire() == input_bytes@,
            r.rep() == encoding,
    ;

    /// The owned wire bytes, verbatim.
    fn bytes(&self) -> (r: Vec<u8>)
        ensures
            r@ == self.wire(),
    ;

    /// The representation identifier the bytes are tagged with.
    fn encoding(&self) -> (r: RepresentationIdentifier)
        ensures
            r == self.rep(),
    ;
}

/// A request message's wire bytes with their representation identifier.
pub struct RequestWrapper {
    serialized_message: Vec<u8>,
    encoding: RepresentationIdentifier,
}

impl Wrapper for RequestWrapper {
    closed spec fn wire(&self) -> Seq<u8> {
        self.serialized_message@
    }

    closed spec fn rep(&self) -> RepresentationIdentifier {
        self.encoding
    }

    fn from_bytes_and_ri(input_bytes: &[u8], encoding: RepresentationIdentifier) -> (r: Self) {
        RequestWrapper { serialized_message: slice_to_vec(input_bytes), encoding }
    }

    fn bytes(&self) -> (r: Vec<u8>) {
        slice_to_vec(self.serialized_message.as_slice())
    }

    fn encoding(&self) -> (r: RepresentationIdentifier) {
        self.encoding
    }
}

impl RequestWrapper {
    /// Wrap a request: encode the mapping's header, if it has one, and place
    /// the serialized payload right after it, all under one representation
    /// identifier.
    pub fn new(service_mapping: ServiceMapping, r_id: RmwRequestId,
        encoding: RepresentationIdentifier, request_payload: &[u8]) -> (r: Self)
        ensures
            r.wire() == request_wire(service_mapping, r_id, encoding, request_payload@),
            r.rep() == encoding,
    {
        let mut ser_buffer: Vec<u8> = Vec::new();
        match service_mapping {
            ServiceMapping::Basic => {
                let basic_header = BasicRequestHeader::new(SampleIdentity::from_request_id(r_id));
                basic_header.encode(&mut ser_buffer, encoding);
            },
            ServiceMapping::Enhanced => {
                // This mapping sends no header: the wire bytes are exactly
                // the payload.
            },
            ServiceMapping::Cyclone => {
                let cyclone_header = CycloneHeader::new(r_id);
                cyclone_header.encode(&mut ser_buffer, encoding);
                proof {
                    assert(ser_buffer@ =~= cyclone_prefix(r_id, encoding));
                }
            },
        }
        crate::cdr::append_slice(&mut ser_buffer, request_payload);
        proof {
            assert(ser_buffer@ =~= request_wire(service_mapping, r_id, encoding,
                request_payload@));
        }
        RequestWrapper { serialized_message: ser_buffer, encoding }
    }

    /// Unwrap a request on the server side: split the mapping's header off
    /// the wire bytes and reconstruct the correlation id from the header or
    /// from the transport metadata, as the mapping prescribes.  The second
    /// component of the result is the serialized payload.
    pub fn unwrap(&self, service_mapping: ServiceMapping, message_info: &MessageInfo) -> (r:
        Result<(RmwRequestId, Vec<u8>), ReadError>)
        ensures
            service_mapping is Basic ==> (if basic_request_parses(self.wire(), self.rep()) {
                r matches Ok(p) && {
                    &&& p.0.writer_guid.bytes@ == self.wire().subrange(0, 16)
                    &&& p.0.sequence_number == seqnum_i64_at(self.wire(), 16, self.rep())
                    &&& p.1@ == self.wire().skip(basic_request_needed_len(self.wire(),
                        self.rep()))
                }
            } else {
                r == Result::<(RmwRequestId, Vec<u8>), ReadError>::Err(ReadError::TooShort {
                    mapping: ServiceMapping::Basic,
                    expected: basic_request_needed_len(self.wire(), self.rep()) as u64,
                    actual: self.wire().len() as u64,
                })
            }),
            service_mapping is Enhanced ==> (r matches Ok(p) && p.0
                == enhanced_request_correlation(*message_info) && p.1@ == self.wire()),
            service_mapping is Cyclone ==> cyclone_unwrap_outcome(r, self.wire(), self.rep(),
                message_info.writer_guid),
    {
        match service_mapping {
            ServiceMapping::Basic => {
                let (header, header_size) = match BasicRequestHeader::decode(
                    self.serialized_message.as_slice(), self.encoding) {
                    Ok(p) => p,
                    Err(e) => {
                        return Err(ReadError::TooShort {
                            mapping: ServiceMapping::Basic,
                            expected: e.expected,
                            actual: e.actual,
                        });
                    },
                };
                let payload = slice_to_vec(slice_subrange(self.serialized_message.as_slice(),
                    header_size, self.serialized_message.len()));
                proof {
                    assert(payload@ =~= self.wire().skip(basic_request_needed_len(self.wire(),
                        self.rep())));
                }
                Ok((RmwRequestId::from_sample_identity(header.request_id), payload))
            },
            ServiceMapping::Enhanced => {
                // No header in the payload: the correlation id comes from
                // transport metadata alone.
                let payload = slice_to_vec(self.serialized_message.as_slice());
                let base = match message_info.related_sample_identity() {
                    Some(rsi) => rsi,
                    // The sending peer was expected to supply the related
                    // sample identity out of band; fall back to the sample's
                    // own identity.
                    None => message_info.sample_identity(),
                };
                let mut rmw_req_id = RmwRequestId::from_sample_identity(base);
                if rmw_req_id.sequence_number.is_unknown() {
                    // Compatibility patch: a peer may supply a related
                    // identity whose endpoint identifier is meaningful but
                    // whose sequence number is the sentinel; use the real
                    // sequence number of the request sample instead.
                    rmw_req_id.sequence_number = message_info.sample_identity().sequence_number;
                }
                Ok((rmw_req_id, payload))
            },
            ServiceMapping::Cyclone => cyclone_unwrap(self.serialized_message.as_slice(),
                message_info.writer_guid(), self.encoding),
        }
    }
}

/// A response message's wire bytes with their representation identifier.
pub struct ResponseWrapper {
    serialized_message: Vec<u8>,
    encoding: RepresentationIdentifier,
}

impl Wrapper for ResponseWrapper {
    closed spec fn wire(&self) -> Seq<u8> {
        self.serialized_message@
    }

    closed spec fn rep(&self) -> RepresentationIdentifier {
        self.encoding
    }

    fn from_bytes_and_ri(input_bytes: &[u8], encoding: RepresentationIdentifier) -> (r: Self) {
        ResponseWrapper { serialized_message: slice_to_vec(input_bytes), encoding }
    }

    fn bytes(&self) -> (r: Vec<u8>) {
        slice_to_vec(self.serialized_message.as_slice())
    }

    fn encoding(&self) -> (r: RepresentationIdentifier) {
        self.encoding
    }
}

impl ResponseWrapper {
    /// Wrap a response: encode the mapping's header, if it has one, with the
    /// request's correlation id, and place the serialized payload right
    /// after it.
    pub fn new(service_mapping: ServiceMapping, r_id: RmwRequestId,
        encoding: RepresentationIdentifier, response_payload: &[u8]) -> (r: Self)
        ensures
            r.wire() == response_wire(service_mapping, r_id, encoding, response_payload@),
            r.rep() == encoding,
    {
        let mut ser_buffer: Vec<u8> = Vec::new();
        match service_mapping {
            ServiceMapping::Basic => {
                let basic_header = BasicReplyHeader::new(SampleIdentity::from_request_id(r_id));
                basic_header.encode(&mut ser_buffer, encoding);
            },
            ServiceMapping::Enhanced => {
                // No header, nothing to write here.
            },
            ServiceMapping::Cyclone => {
                let cyclone_header = CycloneHeader::new(r_id);
                cyclone_header.encode(&mut ser_buffer, encoding);
                proof {
                    assert(ser_buffer@ =~= cyclone_prefix(r_id, encoding));
                }
            },
        }
        crate::cdr::append_slice(&mut ser_buffer, response_payload);
        proof {
            assert(ser_buffer@ =~= response_wire(service_mapping, r_id, encoding,
                response_payload@));
        }
        ResponseWrapper { serialized_message: ser_buffer, encoding }
    }

    /// Unwrap a response on the client side.  For the Basic mapping the
    /// correlation id sits in the reply header; for Enhanced it must arrive
    /// as related-sample-identity metadata; for Cyclone its endpoint
    /// identifier is spliced from the client's own identifier (upper half)
    /// and the sender's identifier (lower half), a reverse-engineered
    /// compatibility behaviour preserved verbatim.
    pub fn unwrap(&self, service_mapping: ServiceMapping, message_info: &MessageInfo,
        client_guid: Guid) -> (r: Result<(RmwRequestId, Vec<u8>), ReadError>)
        ensures
            service_mapping is Basic ==> (if basic_reply_parses(self.wire()) {
                r matches Ok(p) && {
                    &&& p.0.writer_guid.bytes@ == self.wire().subrange(0, 16)
                    &&& p.0.sequence_number == seqnum_i64_at(self.wire(), 16, self.rep())
                    &&& p.1@ == self.wire().skip(28)
                }
            } else {
                r == Result::<(RmwRequestId, Vec<u8>), ReadError>::Err(ReadError::TooShort {
                    mapping: ServiceMapping::Basic,
                    expected: 28,
                    actual: self.wire().len() as u64,
                })
            }),
            service_mapping is Enhanced ==> (match message_info.related_sample_identity {
                Some(rsi) => r matches Ok(p) && p.0 == (RmwRequestId {
                    writer_guid: rsi.writer_guid,
                    sequence_number: rsi.sequence_number,
                }) && p.1@ == self.wire(),
                None => r == Result::<(RmwRequestId, Vec<u8>), ReadError>::Err(
                    ReadError::MissingRelatedIdentity),
            }),
            service_mapping is Cyclone ==> (if cyclone_parses(self.wire()) {
                r matches Ok(p) && {
                    &&& p.0.writer_guid.bytes@ == client_guid.bytes@.subrange(0, 8)
                        + message_info.writer_guid.bytes@.subrange(8, 16)
                    &&& p.0.sequence_number == cyclone_seqnum_at(self.wire(), self.rep())
                    &&& p.1@ == self.wire().skip(16)
                }
            } else {
                r == Result::<(RmwRequestId, Vec<u8>), ReadError>::Err(ReadError::TooShort {
                    mapping: ServiceMapping::Cyclone,
                    expected: 16,
                    actual: self.wire().len() as u64,
                })
            }),
    {
        match service_mapping {
            ServiceMapping::Basic => {
                let (header, header_size) = match BasicReplyHeader::decode(
                    self.serialized_message.as_slice(), self.encoding) {
                    Ok(p) => p,
                    Err(e) => {
                        return Err(ReadError::TooShort {
                            mapping: ServiceMapping::Basic,
                            expected: e.expected,
                            actual: e.actual,
                        });
                    },
                };
                let payload = slice_to_vec(slice_subrange(self.serialized_message.as_slice(),
                    header_size, self.serialized_message.len()));
                proof {
                    assert(payload@ =~= self.wire().skip(28));
                }
                Ok((RmwRequestId::from_sample_identity(header.related_request_id), payload))
            },
            ServiceMapping::Enhanced => {
                let payload = slice_to_vec(self.serialized_message.as_slice());
                let related_sample_identity = match message_info.related_sample_identity() {
                    Some(rsi) => rsi,
                    None => {
                        // Unlike the request side there is no in-payload
                        // header to fall back to, so this is a decode error,
                        // never a silent default.
                        return Err(ReadError::MissingRelatedIdentity);
                    },
                };
                Ok((RmwRequestId::from_sample_identity(related_sample_identity), payload))
            },
            ServiceMapping::Cyclone => {
                // The client's endpoint identifier is spliced from two
                // sources: its upper half is known locally, its lower half
                // came back in the sender's writer identity.
                let client_guid = splice_guid(&client_guid, &message_info.writer_guid);
                cyclone_unwrap(self.serialized_message.as_slice(), client_guid, self.encoding)
            },
        }
    }
}

/// The outcome `cyclone_unwrap` promises: on a long-enough buffer, the
/// correlation id carries `writer_guid` as handed in and the header's
/// sequence number, and the payload is everything after the 16 header bytes;
/// on a shorter buffer, the too-short error.
pub open spec fn cyclone_unwrap_outcome(r: Result<(RmwRequestId, Vec<u8>), ReadError>,
    wire: Seq<u8>, repr: RepresentationIdentifier, writer_guid: Guid) -> bool {
    if cyclone_parses(wire) {
        r matches Ok(p) && {
            &&& p.0.writer_guid == writer_guid
            &&& p.0.sequence_number == cyclone_seqnum_at(wire, repr)
            &&& p.1@ == wire.skip(16)
        }
    } else {
        r == Result::<(RmwRequestId, Vec<u8>), ReadError>::Err(ReadError::TooShort {
            mapping: ServiceMapping::Cyclone,
            expected: 16,
            actual: wire.len() as u64,
        })
    }
}

/// Shared Cyclone decode: request and response unwrapping differ only in
/// which endpoint identifier the caller hands in, and that identifier is
/// returned as the correlation id's as-is.  The sequence number always comes
/// from the header's two 32-bit fields, never from metadata.
fn cyclone_unwrap(serialized_message: &[u8], writer_guid: Guid,
    encoding: RepresentationIdentifier) -> (r: Result<(RmwRequestId, Vec<u8>), ReadError>)
    ensures
        cyclone_unwrap_outcome(r, serialized_message@, encoding, writer_guid),
{
    let (header, header_size) = match CycloneHeader::decode(serialized_message, encoding) {
        Ok(p) => p,
        Err(e) => {
            return Err(ReadError::TooShort {
                mapping: ServiceMapping::Cyclone,
                expected: e.expected,
                actual: e.actual,
            });
        },
    };
    let payload = slice_to_vec(slice_subrange(serialized_message, header_size,
        serialized_message.len()));
    proof {
        assert(payload@ =~= serialized_message@.skip(16));
    }
    let req_id = RmwRequestId {
        writer_guid,
        sequence_number: SequenceNumber::from_high_low(header.sequence_number_high,
            header.sequence_number_low),
    };
    Ok((req_id, payload))
}

/// Join the upper half of `client` to the lower half of `sender`.
fn splice_guid(client: &Guid, sender: &Guid) -> (r: Guid)
    ensures
        r.bytes@ == client.bytes@.subrange(0, 8) + sender.bytes@.subrange(8, 16),
{
    let mut bytes: [u8; 16] = client.to_bytes();
    let mut i: usize = 8;
    while i < 16
        invariant
            8 <= i <= 16,
            bytes@.len() == 16,
            forall|j: int| 0 <= j < 8 ==> bytes@[j] == client.bytes@[j],
            forall|j: int| 8 <= j < i ==> bytes@[j] == sender.bytes@[j],
        decreases 16 - i,
    {
        bytes[i] = sender.bytes[i];
        i = i + 1;
    }
    let r = Guid { bytes };
    proof {
        assert(r.bytes@ =~= client.bytes@.subrange(0, 8) + sender.bytes@.subrange(8, 16));
    }
    r
}

} // verus!
