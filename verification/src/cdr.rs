//! Fixed-width integer fields of the wire headers: byte-order-tagged
//! encodings of 32-bit words, of 64-bit sequence numbers, and of raw
//! identifier bytes.
use vstd::prelude::*;

use crate::request_id::{Guid, SequenceNumber};

verus! {

/// Wire tag selecting the byte order of every multi-byte field of a message:
/// big-endian or little-endian variant of the one binary encoding scheme.
#[derive(Clone, Copy, Debug, PartialEq, Eq, Structural)]
pub enum RepresentationIdentifier {
    CdrBe,
    CdrLe,
}

/// The four little-endian bytes of `v`, least significant first.
pub open spec fn u32_le(v: u32) -> Seq<u8> {
    seq![
        (v & 0xff) as u8,
        ((v >> 8) & 0xff) as u8,
        ((v >> 16) & 0xff) as u8,
        ((v >> 24) & 0xff) as u8,
    ]
}

/// The four big-endian bytes of `v`, most significant first.
pub open spec fn u32_be(v: u32) -> Seq<u8> {
    seq![
        ((v >> 24) & 0xff) as u8,
        ((v >> 16) & 0xff) as u8,
        ((v >> 8) & 0xff) as u8,
        (v & 0xff) as u8,
    ]
}

/// The four bytes of `v` in the byte order that `repr` selects.
pub open spec fn u32_bytes(v: u32, repr: RepresentationIdentifier) -> Seq<u8> {
    match repr {
        RepresentationIdentifier::CdrBe => u32_be(v),
        RepresentationIdentifier::CdrLe => u32_le(v),
    }
}

/// The word whose little-endian bytes are `b`.
pub open spec fn u32_from_le(b: Seq<u8>) -> u32
    recommends
        b.len() == 4,
{
    ((b[0] as u32) | ((b[1] as u32) << 8) | ((b[2] as u32) << 16) | ((b[3] as u32) << 24)) as u32
}

/// The word whose big-endian bytes are `b`.
pub open spec fn u32_from_be(b: Seq<u8>) -> u32
    recommends
        b.len() == 4,
{
    ((b[3] as u32) | ((b[2] as u32) << 8) | ((b[1] as u32) << 16) | ((b[0] as u32) << 24)) as u32
}

/// The word whose bytes, in the byte order that `repr` selects, are `b`.
pub open spec fn u32_from(b: Seq<u8>, repr: RepresentationIdentifier) -> u32
    recommends
        b.len() == 4,
{
    match repr {
        RepresentationIdentifier::CdrBe => u32_from_be(b),
        RepresentationIdentifier::CdrLe => u32_from_le(b),
    }
}

/// The unsigned word with the same 32-bit pattern as `x`.
pub open spec fn i32_bits(x: i32) -> u32 {
    if x >= 0 {
        x as u32
    } else {
        (x + 0x1_0000_0000) as u32
    }
}

/// The signed word with the same 32-bit pattern as `b`.
pub open spec fn i32_of_bits(b: u32) -> i32 {
    if b < 0x8000_0000 {
        b as i32
    } else {
        (b - 0x1_0000_0000) as i32
    }
}

pub proof fn lemma_i32_bits_round_trip(x: i32)
    ensures
        i32_of_bits(i32_bits(x)) == x,
{
}

/// Append the bytes of `v`, in the byte order `repr` selects, to `out`.
pub fn encode_u32(out: &mut Vec<u8>, v: u32, repr: RepresentationIdentifier)
    ensures
        final(out)@ == old(out)@ + u32_bytes(v, repr),
{
    proof {
        assert(v & 0xff < 256 && (v >> 8) & 0xff < 256 && (v >> 16) & 0xff < 256 && (v >> 24)
            & 0xff < 256) by (bit_vector);
    }
    let b0 = (v & 0xff) as u8;
    let b1 = ((v >> 8) & 0xff) as u8;
    let b2 = ((v >> 16) & 0xff) as u8;
    let b3 = ((v >> 24) & 0xff) as u8;
    match repr {
        RepresentationIdentifier::CdrBe => {
            out.push(b3);
            out.push(b2);
            out.push(b1);
            out.push(b0);
            proof {
                assert(out@ =~= old(out)@ + u32_be(v));
            }
        },
        RepresentationIdentifier::CdrLe => {
            out.push(b0);
            out.push(b1);
            out.push(b2);
            out.push(b3);
            proof {
                assert(out@ =~= old(out)@ + u32_le(v));
            }
        },
    }
}

/// Read the word stored at `b[off .. off + 4]` in the byte order `repr`
/// selects.
pub fn decode_u32(b: &[u8], off: usize, repr: RepresentationIdentifier) -> (r: u32)
    requires
        off + 4 <= b@.len(),
    ensures
        r == u32_from(b@.subrange(off as int, off as int + 4), repr),
{
    let b0 = b[off];
    let b1 = b[off + 1];
    let b2 = b[off + 2];
    let b3 = b[off + 3];
    proof {
        let s = b@.subrange(off as int, off as int + 4);
        assert(s[0] == b0 && s[1] == b1 && s[2] == b2 && s[3] == b3);
    }
    match repr {
        RepresentationIdentifier::CdrBe => {
            (b3 as u32) | ((b2 as u32) << 8) | ((b1 as u32) << 16) | ((b0 as u32) << 24)
        },
        RepresentationIdentifier::CdrLe => {
            (b0 as u32) | ((b1 as u32) << 8) | ((b2 as u32) << 16) | ((b3 as u32) << 24)
        },
    }
}

/// Writing a word and reading it back in the same byte order restores it.
pub proof fn lemma_u32_round_trip(v: u32, repr: RepresentationIdentifier)
    ensures
        u32_from(u32_bytes(v, repr), repr) == v,
{
    assert((((v & 0xff) as u8) as u32) | ((((v >> 8) & 0xff) as u8) as u32) << 8 | ((((v >> 16)
        & 0xff) as u8) as u32) << 16 | ((((v >> 24) & 0xff) as u8) as u32) << 24 == v)
        by (bit_vector);
}

/// Append the 16 raw bytes of `g` to `out`; identifier bytes carry no byte
/// order.
pub fn encode_guid(out: &mut Vec<u8>, g: &Guid)
    ensures
        final(out)@ == old(out)@ + g.bytes@,
{
    let mut i: usize = 0;
    while i < 16
        invariant
            i <= 16,
            out@ == old(out)@ + g.bytes@.subrange(0, i as int),
        decreases 16 - i,
    {
        out.push(g.bytes[i]);
        i = i + 1;
        proof {
            assert(out@ =~= old(out)@ + g.bytes@.subrange(0, i as int));
        }
    }
    proof {
        assert(g.bytes@.subrange(0, 16) =~= g.bytes@);
    }
}

/// Read the 16 identifier bytes stored at `b[off .. off + 16]`.
pub fn decode_guid(b: &[u8], off: usize) -> (g: Guid)
    requires
        off + 16 <= b@.len(),
    ensures
        g.bytes@ == b@.subrange(off as int, off as int + 16),
{
    let n = b.len();
    let mut bytes: [u8; 16] = [0; 16];
    let mut i: usize = 0;
    while i < 16
        invariant
            i <= 16,
            n == b@.len(),
            off + 16 <= b@.len(),
            bytes@.len() == 16,
            forall|j: int| 0 <= j < i ==> bytes@[j] == b@[off + j],
        decreases 16 - i,
    {
        bytes[i] = b[off + i];
        i = i + 1;
    }
    let g = Guid { bytes };
    proof {
        assert(g.bytes@ =~= b@.subrange(off as int, off as int + 16));
    }
    g
}

/// The eight bytes of a sequence number as a 64-bit two's-complement integer
/// field: in little-endian order the low half comes first, in big-endian
/// order the high half does.
pub open spec fn seqnum_i64_bytes(sn: SequenceNumber, repr: RepresentationIdentifier) -> Seq<u8> {
    match repr {
        RepresentationIdentifier::CdrBe => u32_be(i32_bits(sn.high)) + u32_be(sn.low),
        RepresentationIdentifier::CdrLe => u32_le(sn.low) + u32_le(i32_bits(sn.high)),
    }
}

/// The sequence number stored at `b[off .. off + 8]` as a 64-bit integer
/// field in the byte order `repr` selects.
pub open spec fn seqnum_i64_at(b: Seq<u8>, off: int, repr: RepresentationIdentifier)
    -> SequenceNumber
    recommends
        0 <= off,
        off + 8 <= b.len(),
{
    match repr {
        RepresentationIdentifier::CdrBe => SequenceNumber {
            high: i32_of_bits(u32_from_be(b.subrange(off, off + 4))),
            low: u32_from_be(b.subrange(off + 4, off + 8)),
        },
        RepresentationIdentifier::CdrLe => SequenceNumber {
            high: i32_of_bits(u32_from_le(b.subrange(off + 4, off + 8))),
            low: u32_from_le(b.subrange(off, off + 4)),
        },
    }
}

/// The high half of `x` as an unsigned word with the same bit pattern.
pub fn i32_to_bits(x: i32) -> (r: u32)
    ensures
        r == i32_bits(x),
{
    if x >= 0 {
        x as u32
    } else {
        ((x as i64) + 0x1_0000_0000) as u32
    }
}

/// The signed word stored in the bit pattern `b`.
pub fn i32_from_bits(b: u32) -> (r: i32)
    ensures
        r == i32_of_bits(b),
{
    if b < 0x8000_0000 {
        b as i32
    } else {
        ((b as i64) - 0x1_0000_0000) as i32
    }
}

/// Append a sequence number as a 64-bit integer field in the byte order
/// `repr` selects.
pub fn encode_seqnum_i64(out: &mut Vec<u8>, sn: &SequenceNumber, repr: RepresentationIdentifier)
    ensures
        final(out)@ == old(out)@ + seqnum_i64_bytes(*sn, repr),
{
    let high_bits = i32_to_bits(sn.high);
    match repr {
        RepresentationIdentifier::CdrBe => {
            encode_u32(out, high_bits, repr);
            encode_u32(out, sn.low, repr);
        },
        RepresentationIdentifier::CdrLe => {
            encode_u32(out, sn.low, repr);
            encode_u32(out, high_bits, repr);
        },
    }
    proof {
        assert(out@ =~= old(out)@ + seqnum_i64_bytes(*sn, repr));
    }
}

/// Read the sequence number stored at `b[off .. off + 8]` as a 64-bit
/// integer field.
pub fn decode_seqnum_i64(b: &[u8], off: usize, repr: RepresentationIdentifier) -> (sn:
    SequenceNumber)
    requires
        off + 8 <= b@.len(),
    ensures
        sn == seqnum_i64_at(b@, off as int, repr),
{
    let _len = b.len();
    match repr {
        RepresentationIdentifier::CdrBe => {
            let high = i32_from_bits(decode_u32(b, off, repr));
            let low = decode_u32(b, off + 4, repr);
            SequenceNumber { high, low }
        },
        RepresentationIdentifier::CdrLe => {
            let low = decode_u32(b, off, repr);
            let high = i32_from_bits(decode_u32(b, off + 4, repr));
            SequenceNumber { high, low }
        },
    }
}

/// Writing a sequence number as a 64-bit field and reading it back in the
/// same byte order restores it.
pub proof fn lemma_seqnum_i64_round_trip(sn: SequenceNumber, repr: RepresentationIdentifier)
    ensures
        seqnum_i64_at(seqnum_i64_bytes(sn, repr), 0, repr) == sn,
{
    let s = seqnum_i64_bytes(sn, repr);
    match repr {
        RepresentationIdentifier::CdrBe => {
            assert(s.subrange(0, 4) =~= u32_be(i32_bits(sn.high)));
            assert(s.subrange(4, 8) =~= u32_be(sn.low));
        },
        RepresentationIdentifier::CdrLe => {
            assert(s.subrange(0, 4) =~= u32_le(sn.low));
            assert(s.subrange(4, 8) =~= u32_le(i32_bits(sn.high)));
        },
    }
    lemma_u32_round_trip(i32_bits(sn.high), repr);
    lemma_u32_round_trip(sn.low, repr);
    lemma_i32_bits_round_trip(sn.high);
}

/// Append every byte of `b` to `out`.
pub fn append_slice(out: &mut Vec<u8>, b: &[u8])
    ensures
        final(out)@ == old(out)@ + b@,
{
    let n = b.len();
    let mut i: usize = 0;
    while i < n
        invariant
            i <= n,
            n == b@.len(),
            out@ == old(out)@ + b@.subrange(0, i as int),
        decreases n - i,
    {
        out.push(b[i]);
        i = i + 1;
        proof {
            assert(out@ =~= old(out)@ + b@.subrange(0, i as int));
        }
    }
    proof {
        assert(b@.subrange(0, n as int) =~= b@);
    }
}

} // verus!
