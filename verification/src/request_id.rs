//! Identity and sequence types: endpoint identifiers, sequence numbers,
//! sample identities and the correlation id that pairs them.
use vstd::prelude::*;

verus! {

/// 16-byte opaque value identifying a communication endpoint, compared and
/// copied by value and convertible to/from its raw byte layout.
#[derive(Clone, Copy, Debug, PartialEq, Eq)]
pub struct Guid {
    pub bytes: [u8; 16],
}

impl Guid {
    pub fn from_bytes(bytes: [u8; 16]) -> (r: Guid)
        ensures
            r.bytes == bytes,
    {
        Guid { bytes }
    }

    pub fn to_bytes(&self) -> (r: [u8; 16])
        ensures
            r == self.bytes,
    {
        self.bytes
    }
}

/// 64-bit sequence number scoped to an endpoint identifier, held as the two
/// 32-bit halves used by the wire encodings.  The mathematical value is
/// `high * 2^32 + low`.
#[derive(Clone, Copy, Debug, PartialEq, Eq, Structural)]
pub struct SequenceNumber {
    pub high: i32,
    pub low: u32,
}

impl SequenceNumber {
    /// The mathematical 64-bit value this sequence number stands for.
    pub open spec fn value(self) -> int {
        self.high * 0x1_0000_0000 + self.low
    }

    /// The reserved sentinel that cannot name a real sample.
    pub open spec fn spec_is_unknown(self) -> bool {
        self.high == -1i32 && self.low == 0u32
    }

    pub fn from_high_low(high: i32, low: u32) -> (r: SequenceNumber)
        ensures
            r.high == high,
            r.low == low,
    {
        SequenceNumber { high, low }
    }

    /// The sentinel value UNKNOWN, with high half `-1` and low half `0`.
    pub fn unknown() -> (r: SequenceNumber)
        ensures
            r.spec_is_unknown(),
            r == (SequenceNumber { high: -1i32, low: 0u32 }),
    {
        SequenceNumber { high: -1, low: 0 }
    }

    pub fn is_unknown(&self) -> (r: bool)
        ensures
            r == self.spec_is_unknown(),
    {
        self.high == -1 && self.low == 0
    }

    pub fn high(&self) -> (r: i32)
        ensures
            r == self.high,
    {
        self.high
    }

    pub fn low(&self) -> (r: u32)
        ensures
            r == self.low,
    {
        self.low
    }
}

/// Transport-assigned name of one transmitted sample: the writer that sent it
/// and the sequence number it carried.
#[derive(Clone, Copy, Debug, PartialEq, Eq)]
pub struct SampleIdentity {
    pub writer_guid: Guid,
    pub sequence_number: SequenceNumber,
}

/// Correlation id: pairs a requester's endpoint identifier with the sequence
/// number of the outgoing request sample.  It uniquely identifies one
/// outstanding request from one client for the lifetime of that request.
#[derive(Clone, Copy, Debug, PartialEq, Eq)]
pub struct RmwRequestId {
    pub writer_guid: Guid,
    pub sequence_number: SequenceNumber,
}

impl SampleIdentity {
    pub fn from_request_id(r: RmwRequestId) -> (s: SampleIdentity)
        ensures
            s.writer_guid == r.writer_guid,
            s.sequence_number == r.sequence_number,
    {
        SampleIdentity { writer_guid: r.writer_guid, sequence_number: r.sequence_number }
    }
}

impl RmwRequestId {
    pub fn from_sample_identity(s: SampleIdentity) -> (r: RmwRequestId)
        ensures
            r.writer_guid == s.writer_guid,
            r.sequence_number == s.sequence_number,
    {
        RmwRequestId { writer_guid: s.writer_guid, sequence_number: s.sequence_number }
    }
}

} // verus!
