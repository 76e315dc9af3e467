//! The three fixed binary header layouts and their codecs.
//!
//! Every multi-byte field is written in the byte order the message's
//! representation identifier selects.  Each decode reports the exact byte
//! length it consumed, so the caller can split the remaining bytes off as
//! the payload.
use vstd::prelude::*;
use vstd::slice::{slice_subrange, slice_to_vec};

use crate::cdr::{
    append_slice, decode_guid, decode_seqnum_i64, decode_u32, encode_guid, encode_seqnum_i64,
    encode_u32, i32_bits, i32_from_bits, i32_of_bits, i32_to_bits, seqnum_i64_at,
    seqnum_i64_bytes, u32_bytes, u32_from, RepresentationIdentifier,
};
use crate::request_id::{Guid, RmwRequestId, SampleIdentity, SequenceNumber};

verus! {

/// A buffer ended before the fixed layout a header requires: it holds
/// `actual` bytes where the layout needs `expected`.
#[derive(Clone, Copy, Debug, PartialEq, Eq, Structural)]
pub struct HeaderTooShort {
    pub expected: u64,
    pub actual: u64,
}

/// The sample-identity wire shape: 16 identifier bytes followed by the
/// sequence number as one 64-bit integer field.
pub open spec fn sample_identity_bytes(si: SampleIdentity, repr: RepresentationIdentifier)
    -> Seq<u8>
{
    si.writer_guid.bytes@ + seqnum_i64_bytes(si.sequence_number, repr)
}

/// Append the sample-identity wire shape of `si` to `out`.
pub fn encode_sample_identity(out: &mut Vec<u8>, si: &SampleIdentity,
    repr: RepresentationIdentifier)
    ensures
        final(out)@ == old(out)@ + sample_identity_bytes(*si, repr),
{
    encode_guid(out, &si.writer_guid);
    encode_seqnum_i64(out, &si.sequence_number, repr);
    proof {
        assert(out@ =~= old(out)@ + sample_identity_bytes(*si, repr));
    }
}

/// Read the sample identity stored at `b[off .. off + 24]`.
pub fn decode_sample_identity(b: &[u8], off: usize, repr: RepresentationIdentifier) -> (si:
    SampleIdentity)
    requires
        off + 24 <= b@.len(),
    ensures
        si.writer_guid.bytes@ == b@.subrange(off as int, off as int + 16),
        si.sequence_number == seqnum_i64_at(b@, off as int + 16, repr),
{
    let _len = b.len();
    let writer_guid = decode_guid(b, off);
    let sequence_number = decode_seqnum_i64(b, off + 16, repr);
    SampleIdentity { writer_guid, sequence_number }
}

/// Request header of the Basic mapping: the correlation id in sample-identity
/// wire shape, then an instance name that is transmitted empty.
#[derive(Debug)]
pub struct BasicRequestHeader {
    pub request_id: SampleIdentity,
    /// Bytes of the instance name without its terminator.  The field is
    /// apparently unused by peers and is always sent empty.
    pub instance_name: Vec<u8>,
}

/// The Basic request header layout: sample identity, then the name's byte
/// count plus one for its terminator as a 32-bit field, then the name bytes,
/// then the terminator.
pub open spec fn basic_request_header_bytes(si: SampleIdentity, name: Seq<u8>,
    repr: RepresentationIdentifier) -> Seq<u8>
{
    sample_identity_bytes(si, repr) + u32_bytes((name.len() + 1) as u32, repr) + name + seq![0u8]
}

/// The count of bytes a buffer must hold for the Basic request header to
/// decode: the 28 fixed bytes, plus the name bytes the length field asks for
/// once those 28 are present.
pub open spec fn basic_request_needed_len(b: Seq<u8>, repr: RepresentationIdentifier) -> int {
    if b.len() < 28 {
        28
    } else {
        28 + u32_from(b.subrange(24, 28), repr)
    }
}

/// Whether the Basic request header decodes from the front of `b`.
pub open spec fn basic_request_parses(b: Seq<u8>, repr: RepresentationIdentifier) -> bool {
    b.len() >= basic_request_needed_len(b, repr)
}

/// The instance-name bytes (terminator stripped) that decoding the front of
/// `b` yields.
pub open spec fn basic_request_name_at(b: Seq<u8>, repr: RepresentationIdentifier) -> Seq<u8>
    recommends
        basic_request_parses(b, repr),
{
    let m = u32_from(b.subrange(24, 28), repr) as int;
    if m == 0 {
        Seq::<u8>::empty()
    } else {
        b.subrange(28, 28 + m - 1)
    }
}

impl BasicRequestHeader {
    pub fn new(request_id: SampleIdentity) -> (r: Self)
        ensures
            r.request_id == request_id,
            r.instance_name@ == Seq::<u8>::empty(),
    {
        BasicRequestHeader { request_id, instance_name: Vec::new() }
    }

    /// Append this header's wire shape to `out`.
    pub fn encode(&self, out: &mut Vec<u8>, repr: RepresentationIdentifier)
        requires
            self.instance_name@.len() < 0xffff_ffff,
        ensures
            final(out)@ == old(out)@ + basic_request_header_bytes(self.request_id,
                self.instance_name@, repr),
    {
        encode_sample_identity(out, &self.request_id, repr);
        let name_len: usize = self.instance_name.len();
        encode_u32(out, (name_len + 1) as u32, repr);
        append_slice(out, self.instance_name.as_slice());
        out.push(0);
        proof {
            assert(out@ =~= old(out)@ + basic_request_header_bytes(self.request_id,
                self.instance_name@, repr));
        }
    }

    /// Decode the header from the front of `b`, returning it with the exact
    /// byte count it consumed; fail when `b` ends before the layout does.
    pub fn decode(b: &[u8], repr: RepresentationIdentifier) -> (r: Result<(Self, usize),
        HeaderTooShort>)
        ensures
            basic_request_parses(b@, repr) ==> (r matches Ok(p) && {
                let (h, consumed) = p;
                &&& h.request_id.writer_guid.bytes@ == b@.subrange(0, 16)
                &&& h.request_id.sequence_number == seqnum_i64_at(b@, 16, repr)
                &&& h.instance_name@ == basic_request_name_at(b@, repr)
                &&& consumed == basic_request_needed_len(b@, repr)
            }),
            !basic_request_parses(b@, repr) ==> (r matches Err(e) && e.expected
                == basic_request_needed_len(b@, repr) && e.actual == b@.len()),
    {
        let len = b.len();
        if len < 28 {
            return Err(HeaderTooShort { expected: 28, actual: len as u64 });
        }
        let request_id = decode_sample_identity(b, 0, repr);
        let m = decode_u32(b, 24, repr);
        if (m as u64) > (len as u64) - 28 {
            return Err(HeaderTooShort { expected: 28 + (m as u64), actual: len as u64 });
        }
        let msz = m as usize;
        let instance_name: Vec<u8> = if msz == 0 {
            Vec::new()
        } else {
            slice_to_vec(slice_subrange(b, 28, 28 + msz - 1))
        };
        Ok((BasicRequestHeader { request_id, instance_name }, 28 + msz))
    }
}

/// Reply header of the Basic mapping: the correlation id of the request this
/// response answers, then a remote-exception code transmitted as zero.
#[derive(Debug)]
pub struct BasicReplyHeader {
    pub related_request_id: SampleIdentity,
    /// Transmitted as zero, meaning remote execution succeeded.
    pub remote_exception_code: u32,
}

/// The Basic reply header layout: sample identity, then the exception code
/// as a 32-bit field.
pub open spec fn basic_reply_header_bytes(si: SampleIdentity, code: u32,
    repr: RepresentationIdentifier) -> Seq<u8>
{
    sample_identity_bytes(si, repr) + u32_bytes(code, repr)
}

/// Whether the Basic reply header decodes from the front of `b`: its layout
/// is 28 bytes, fixed.
pub open spec fn basic_reply_parses(b: Seq<u8>) -> bool {
    b.len() >= 28
}

impl BasicReplyHeader {
    pub fn new(related_request_id: SampleIdentity) -> (r: Self)
        ensures
            r.related_request_id == related_request_id,
            r.remote_exception_code == 0u32,
    {
        BasicReplyHeader { related_request_id, remote_exception_code: 0 }
    }

    /// Append this header's wire shape to `out`.
    pub fn encode(&self, out: &mut Vec<u8>, repr: RepresentationIdentifier)
        ensures
            final(out)@ == old(out)@ + basic_reply_header_bytes(self.related_request_id,
                self.remote_exception_code, repr),
    {
        encode_sample_identity(out, &self.related_request_id, repr);
        encode_u32(out, self.remote_exception_code, repr);
        proof {
            assert(out@ =~= old(out)@ + basic_reply_header_bytes(self.related_request_id,
                self.remote_exception_code, repr));
        }
    }

    /// Decode the header from the front of `b`, returning it with the exact
    /// byte count it consumed; fail when `b` holds fewer than its 28 bytes.
    pub fn decode(b: &[u8], repr: RepresentationIdentifier) -> (r: Result<(Self, usize),
        HeaderTooShort>)
        ensures
            basic_reply_parses(b@) ==> (r matches Ok(p) && {
                let (h, consumed) = p;
                &&& h.related_request_id.writer_guid.bytes@ == b@.subrange(0, 16)
                &&& h.related_request_id.sequence_number == seqnum_i64_at(b@, 16, repr)
                &&& h.remote_exception_code == u32_from(b@.subrange(24, 28), repr)
                &&& consumed == 28
            }),
            !basic_reply_parses(b@) ==> (r matches Err(e) && e.expected == 28 && e.actual
                == b@.len()),
    {
        let len = b.len();
        if len < 28 {
            return Err(HeaderTooShort { expected: 28, actual: len as u64 });
        }
        let related_request_id = decode_sample_identity(b, 0, repr);
        let remote_exception_code = decode_u32(b, 24, repr);
        Ok((BasicReplyHeader { related_request_id, remote_exception_code }, 28))
    }
}

/// Header of the Cyclone mapping, used for requests and responses alike: the
/// low half of the client's endpoint identifier, then the sequence number as
/// two 32-bit fields, high half first.
#[derive(Debug)]
pub struct CycloneHeader {
    /// Only the last 8 bytes of the client identifier travel in the header;
    /// the upper half is recovered elsewhere.
    pub guid_second_half: [u8; 8],
    pub sequence_number_high: i32,
    pub sequence_number_low: u32,
}

/// The Cyclone header layout: 8 identifier bytes, then the sequence number's
/// high and low halves as two 32-bit fields.
pub open spec fn cyclone_header_bytes(h: CycloneHeader, repr: RepresentationIdentifier)
    -> Seq<u8>
{
    h.guid_second_half@ + u32_bytes(i32_bits(h.sequence_number_high), repr) + u32_bytes(
        h.sequence_number_low, repr)
}

/// Whether the Cyclone header decodes from the front of `b`: its layout is
/// 16 bytes, fixed.
pub open spec fn cyclone_parses(b: Seq<u8>) -> bool {
    b.len() >= 16
}

/// The sequence number a Cyclone header stored at the front of `b` carries.
pub open spec fn cyclone_seqnum_at(b: Seq<u8>, repr: RepresentationIdentifier) -> SequenceNumber
    recommends
        cyclone_parses(b),
{
    SequenceNumber {
        high: i32_of_bits(u32_from(b.subrange(8, 12), repr)),
        low: u32_from(b.subrange(12, 16), repr),
    }
}

impl CycloneHeader {
    pub fn new(r_id: RmwRequestId) -> (r: Self)
        ensures
            r.guid_second_half@ == r_id.writer_guid.bytes@.subrange(8, 16),
            r.sequence_number_high == r_id.sequence_number.high,
            r.sequence_number_low == r_id.sequence_number.low,
    {
        let mut guid_second_half: [u8; 8] = [0; 8];
        let mut i: usize = 0;
        while i < 8
            invariant
                i <= 8,
                guid_second_half@.len() == 8,
                forall|j: int| 0 <= j < i ==> guid_second_half@[j] == r_id.writer_guid.bytes@[8
                    + j],
            decreases 8 - i,
        {
            guid_second_half[i] = r_id.writer_guid.bytes[8 + i];
            i = i + 1;
        }
        proof {
            assert(guid_second_half@ =~= r_id.writer_guid.bytes@.subrange(8, 16));
        }
        CycloneHeader {
            guid_second_half,
            sequence_number_high: r_id.sequence_number.high,
            sequence_number_low: r_id.sequence_number.low,
        }
    }

    /// Append this header's wire shape to `out`.
    pub fn encode(&self, out: &mut Vec<u8>, repr: RepresentationIdentifier)
        ensures
            final(out)@ == old(out)@ + cyclone_header_bytes(*self, repr),
    {
        let mut i: usize = 0;
        while i < 8
            invariant
                i <= 8,
                out@ == old(out)@ + self.guid_second_half@.subrange(0, i as int),
            decreases 8 - i,
        {
            out.push(self.guid_second_half[i]);
            i = i + 1;
            proof {
                assert(out@ =~= old(out)@ + self.guid_second_half@.subrange(0, i as int));
            }
        }
        proof {
            assert(self.guid_second_half@.subrange(0, 8) =~= self.guid_second_half@);
        }
        encode_u32(out, i32_to_bits(self.sequence_number_high), repr);
        encode_u32(out, self.sequence_number_low, repr);
        proof {
            assert(out@ =~= old(out)@ + cyclone_header_bytes(*self, repr));
        }
    }

    /// Decode the header from the front of `b`, returning it with the exact
    /// byte count it consumed; fail when `b` holds fewer than its 16 bytes.
    pub fn decode(b: &[u8], repr: RepresentationIdentifier) -> (r: Result<(Self, usize),
        HeaderTooShort>)
        ensures
            cyclone_parses(b@) ==> (r matches Ok(p) && {
                let (h, consumed) = p;
                &&& h.guid_second_half@ == b@.subrange(0, 8)
                &&& h.sequence_number_high == cyclone_seqnum_at(b@, repr).high
                &&& h.sequence_number_low == cyclone_seqnum_at(b@, repr).low
                &&& consumed == 16
            }),
            !cyclone_parses(b@) ==> (r matches Err(e) && e.expected == 16 && e.actual
                == b@.len()),
    {
        let len = b.len();
        if len < 16 {
            return Err(HeaderTooShort { expected: 16, actual: len as u64 });
        }
        let mut guid_second_half: [u8; 8] = [0; 8];
        let mut i: usize = 0;
        while i < 8
            invariant
                i <= 8,
                16 <= b@.len(),
                b@.len() <= u64::MAX,
                guid_second_half@.len() == 8,
                forall|j: int| 0 <= j < i ==> guid_second_half@[j] == b@[j],
            decreases 8 - i,
        {
            guid_second_half[i] = b[i];
            i = i + 1;
        }
        proof {
            assert(guid_second_half@ =~= b@.subrange(0, 8));
        }
        let sequence_number_high = i32_from_bits(decode_u32(b, 8, repr));
        let sequence_number_low = decode_u32(b, 12, repr);
        Ok((CycloneHeader { guid_second_half, sequence_number_high, sequence_number_low }, 16))
    }
}

} // verus!
