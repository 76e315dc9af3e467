//! Relations between wrap and unwrap: what decoding gives back of what
//! encoding put on the wire, for each mapping.
//!
//! The wrap operations promise wire bytes equal to [`request_wire`] or
//! [`response_wire`]; the unwrap operations promise their results as
//! functions of the wire bytes and the metadata.  The lemmas here connect
//! the two, so that a caller who wraps and then unwraps recovers the
//! correlation id and the payload it started from.
use vstd::prelude::*;

use crate::cdr::{
    lemma_seqnum_i64_round_trip, lemma_u32_round_trip, seqnum_i64_at, seqnum_i64_bytes,
    u32_bytes, RepresentationIdentifier,
};
use crate::headers::{
    basic_reply_parses, basic_request_needed_len, basic_request_parses, cyclone_parses,
    cyclone_seqnum_at, sample_identity_bytes,
};
use crate::request_id::{RmwRequestId, SampleIdentity};
use crate::wrappers::{
    enhanced_request_correlation, request_id_identity, request_wire, response_wire, MessageInfo,
};
use crate::ServiceMapping;

verus! {

/// Round trip, Basic mapping, request side: the wire bytes a correlation id
/// and a payload produce parse again, and parsing recovers that correlation
/// id and that payload exactly, in either byte order.
pub proof fn lemma_basic_request_round_trip(r_id: RmwRequestId, repr: RepresentationIdentifier,
    payload: Seq<u8>)
    ensures
        ({
            let wire = request_wire(ServiceMapping::Basic, r_id, repr, payload);
            &&& basic_request_parses(wire, repr)
            &&& basic_request_needed_len(wire, repr) == 29
            &&& wire.subrange(0, 16) == r_id.writer_guid.bytes@
            &&& seqnum_i64_at(wire, 16, repr) == r_id.sequence_number
            &&& wire.skip(29) == payload
        }),
{
    let si = request_id_identity(r_id);
    let wire = request_wire(ServiceMapping::Basic, r_id, repr, payload);
    let sn_bytes = seqnum_i64_bytes(r_id.sequence_number, repr);
    assert(sample_identity_bytes(si, repr).len() == 24);
    assert(wire.len() == 29 + payload.len());
    assert(wire.subrange(24, 28) =~= u32_bytes(1, repr));
    lemma_u32_round_trip(1, repr);
    assert(basic_request_needed_len(wire, repr) == 29);
    assert(wire.subrange(0, 16) =~= r_id.writer_guid.bytes@);
    assert(wire.subrange(16, 20) =~= sn_bytes.subrange(0, 4));
    assert(wire.subrange(20, 24) =~= sn_bytes.subrange(4, 8));
    lemma_seqnum_i64_round_trip(r_id.sequence_number, repr);
    assert(wire.skip(29) =~= payload);
}

/// Round trip, Basic mapping, response side: as on the request side, with
/// the reply header's fixed 28-byte layout.
pub proof fn lemma_basic_response_round_trip(r_id: RmwRequestId, repr: RepresentationIdentifier,
    payload: Seq<u8>)
    ensures
        ({
            let wire = response_wire(ServiceMapping::Basic, r_id, repr, payload);
            &&& basic_reply_parses(wire)
            &&& wire.subrange(0, 16) == r_id.writer_guid.bytes@
            &&& seqnum_i64_at(wire, 16, repr) == r_id.sequence_number
            &&& wire.skip(28) == payload
        }),
{
    let si = request_id_identity(r_id);
    let wire = response_wire(ServiceMapping::Basic, r_id, repr, payload);
    let sn_bytes = seqnum_i64_bytes(r_id.sequence_number, repr);
    assert(sample_identity_bytes(si, repr).len() == 24);
    assert(wire.len() == 28 + payload.len());
    assert(wire.subrange(0, 16) =~= r_id.writer_guid.bytes@);
    assert(wire.subrange(16, 20) =~= sn_bytes.subrange(0, 4));
    assert(wire.subrange(20, 24) =~= sn_bytes.subrange(4, 8));
    lemma_seqnum_i64_round_trip(r_id.sequence_number, repr);
    assert(wire.skip(28) =~= payload);
}

/// Round trip, Enhanced mapping, request side: the wire bytes are exactly
/// the payload, and when the unwrap metadata carries the request's own
/// identity as related-sample identity, with any sequence number that is not
/// the UNKNOWN sentinel, the correlation id comes back exactly.
pub proof fn lemma_enhanced_request_round_trip(r_id: RmwRequestId,
    repr: RepresentationIdentifier, payload: Seq<u8>, info: MessageInfo)
    requires
        !r_id.sequence_number.spec_is_unknown(),
        info.related_sample_identity == Some(request_id_identity(r_id)),
    ensures
        request_wire(ServiceMapping::Enhanced, r_id, repr, payload) == payload,
        enhanced_request_correlation(info) == r_id,
{
}

/// The UNKNOWN-sentinel patch of the Enhanced mapping: when the related
/// identity names endpoint `g` but carries the sentinel as its sequence
/// number, the correlation id pairs `g` with the sequence number of the
/// sample's own identity.
pub proof fn lemma_enhanced_unknown_patch(rsi: SampleIdentity, info: MessageInfo)
    requires
        info.related_sample_identity == Some(rsi),
        rsi.sequence_number.spec_is_unknown(),
    ensures
        enhanced_request_correlation(info) == (RmwRequestId {
            writer_guid: rsi.writer_guid,
            sequence_number: info.sample_identity.sequence_number,
        }),
{
}

/// Round trip, Cyclone mapping: the wire bytes a correlation id and a
/// payload produce parse again, the header hands the sequence number back
/// exactly, and the payload follows the 16 header bytes.  The endpoint
/// identifier is not recovered from the header, which carries only its low
/// half; unwrap reconstructs it from the caller's knowledge instead.
pub proof fn lemma_cyclone_round_trip(r_id: RmwRequestId, repr: RepresentationIdentifier,
    payload: Seq<u8>)
    ensures
        ({
            let wire = request_wire(ServiceMapping::Cyclone, r_id, repr, payload);
            &&& cyclone_parses(wire)
            &&& wire.subrange(0, 8) == r_id.writer_guid.bytes@.subrange(8, 16)
            &&& cyclone_seqnum_at(wire, repr) == r_id.sequence_number
            &&& wire.skip(16) == payload
            &&& response_wire(ServiceMapping::Cyclone, r_id, repr, payload) == wire
        }),
{
    let wire = request_wire(ServiceMapping::Cyclone, r_id, repr, payload);
    let high_bits = crate::cdr::i32_bits(r_id.sequence_number.high);
    assert(wire.len() == 16 + payload.len());
    assert(wire.subrange(0, 8) =~= r_id.writer_guid.bytes@.subrange(8, 16));
    assert(wire.subrange(8, 12) =~= u32_bytes(high_bits, repr));
    assert(wire.subrange(12, 16) =~= u32_bytes(r_id.sequence_number.low, repr));
    lemma_u32_round_trip(high_bits, repr);
    lemma_u32_round_trip(r_id.sequence_number.low, repr);
    crate::cdr::lemma_i32_bits_round_trip(r_id.sequence_number.high);
    assert(wire.skip(16) =~= payload);
}

} // verus!
