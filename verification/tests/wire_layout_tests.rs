//! Exact wire bytes of each mapping's header, and the decode errors on
//! buffers that end before a header does.
use service_wrappers::cdr::RepresentationIdentifier;
use service_wrappers::request_id::{Guid, RmwRequestId, SampleIdentity, SequenceNumber};
use service_wrappers::wrappers::{
    MessageInfo, ReadError, RequestWrapper, ResponseWrapper, Wrapper,
};
use service_wrappers::ServiceMapping;

fn counting_guid() -> Guid {
    Guid::from_bytes([1, 2, 3, 4, 5, 6, 7, 8, 9, 10, 11, 12, 13, 14, 15, 16])
}

fn rid7() -> RmwRequestId {
    RmwRequestId {
        writer_guid: counting_guid(),
        sequence_number: SequenceNumber::from_high_low(0, 7),
    }
}

fn any_info() -> MessageInfo {
    let si = SampleIdentity {
        writer_guid: counting_guid(),
        sequence_number: SequenceNumber::from_high_low(0, 7),
    };
    MessageInfo::new(counting_guid(), si, Some(si))
}

#[test]
fn basic_request_header_bytes_little_endian() {
    let w = RequestWrapper::new(ServiceMapping::Basic, rid7(), RepresentationIdentifier::CdrLe,
        &[0xaa, 0xbb]);
    let mut expected: Vec<u8> = Vec::new();
    // 16 identifier bytes.
    expected.extend_from_slice(&[1, 2, 3, 4, 5, 6, 7, 8, 9, 10, 11, 12, 13, 14, 15, 16]);
    // Sequence number 7 as a little-endian 64-bit field: low half first.
    expected.extend_from_slice(&[7, 0, 0, 0, 0, 0, 0, 0]);
    // Empty instance name: byte count 1 (terminator only), then the terminator.
    expected.extend_from_slice(&[1, 0, 0, 0, 0]);
    expected.extend_from_slice(&[0xaa, 0xbb]);
    assert_eq!(w.bytes(), expected);
}

#[test]
fn basic_request_header_bytes_big_endian() {
    let w = RequestWrapper::new(ServiceMapping::Basic, rid7(), RepresentationIdentifier::CdrBe,
        &[0xcc]);
    let mut expected: Vec<u8> = Vec::new();
    expected.extend_from_slice(&[1, 2, 3, 4, 5, 6, 7, 8, 9, 10, 11, 12, 13, 14, 15, 16]);
    // Sequence number 7 as a big-endian 64-bit field: high half first.
    expected.extend_from_slice(&[0, 0, 0, 0, 0, 0, 0, 7]);
    expected.extend_from_slice(&[0, 0, 0, 1, 0]);
    expected.extend_from_slice(&[0xcc]);
    assert_eq!(w.bytes(), expected);
}

#[test]
fn basic_reply_header_bytes_little_endian() {
    let w = ResponseWrapper::new(ServiceMapping::Basic, rid7(), RepresentationIdentifier::CdrLe,
        &[0xee]);
    let mut expected: Vec<u8> = Vec::new();
    expected.extend_from_slice(&[1, 2, 3, 4, 5, 6, 7, 8, 9, 10, 11, 12, 13, 14, 15, 16]);
    expected.extend_from_slice(&[7, 0, 0, 0, 0, 0, 0, 0]);
    // Remote exception code 0, meaning success.
    expected.extend_from_slice(&[0, 0, 0, 0]);
    expected.extend_from_slice(&[0xee]);
    assert_eq!(w.bytes(), expected);
}

#[test]
fn cyclone_header_bytes_both_orders() {
    let r = RmwRequestId {
        writer_guid: counting_guid(),
        sequence_number: SequenceNumber::from_high_low(1, 2),
    };
    let w = RequestWrapper::new(ServiceMapping::Cyclone, r, RepresentationIdentifier::CdrLe,
        &[0x5a]);
    let mut expected: Vec<u8> = Vec::new();
    // Only the low half of the client identifier travels.
    expected.extend_from_slice(&[9, 10, 11, 12, 13, 14, 15, 16]);
    // High half then low half, each as a little-endian 32-bit field.
    expected.extend_from_slice(&[1, 0, 0, 0]);
    expected.extend_from_slice(&[2, 0, 0, 0]);
    expected.extend_from_slice(&[0x5a]);
    assert_eq!(w.bytes(), expected);

    let wb = RequestWrapper::new(ServiceMapping::Cyclone, r, RepresentationIdentifier::CdrBe,
        &[0x5a]);
    let mut expected_be: Vec<u8> = Vec::new();
    expected_be.extend_from_slice(&[9, 10, 11, 12, 13, 14, 15, 16]);
    expected_be.extend_from_slice(&[0, 0, 0, 1]);
    expected_be.extend_from_slice(&[0, 0, 0, 2]);
    expected_be.extend_from_slice(&[0x5a]);
    assert_eq!(wb.bytes(), expected_be);
}

#[test]
fn cyclone_negative_high_half_encodes_as_its_bit_pattern() {
    let r = RmwRequestId {
        writer_guid: counting_guid(),
        sequence_number: SequenceNumber::from_high_low(-1, 0xffff_fffe),
    };
    let w = RequestWrapper::new(ServiceMapping::Cyclone, r, RepresentationIdentifier::CdrBe,
        &[]);
    let mut expected: Vec<u8> = Vec::new();
    expected.extend_from_slice(&[9, 10, 11, 12, 13, 14, 15, 16]);
    expected.extend_from_slice(&[0xff, 0xff, 0xff, 0xff]);
    expected.extend_from_slice(&[0xff, 0xff, 0xff, 0xfe]);
    assert_eq!(w.bytes(), expected);
    let info = any_info();
    let (got_id, _) = w.unwrap(ServiceMapping::Cyclone, &info).unwrap();
    assert_eq!(got_id.sequence_number, SequenceNumber::from_high_low(-1, 0xffff_fffe));
}

#[test]
fn enhanced_wire_is_exactly_the_payload() {
    let payload = vec![0xde, 0xad, 0xbe, 0xef];
    let w = RequestWrapper::new(ServiceMapping::Enhanced, rid7(),
        RepresentationIdentifier::CdrLe, &payload);
    assert_eq!(w.bytes(), payload);
    let r = ResponseWrapper::new(ServiceMapping::Enhanced, rid7(),
        RepresentationIdentifier::CdrBe, &payload);
    assert_eq!(r.bytes(), payload);
}

#[test]
fn basic_request_too_short_every_length() {
    for n in 0..28 {
        let short = vec![0u8; n];
        let w = RequestWrapper::from_bytes_and_ri(&short, RepresentationIdentifier::CdrLe);
        let err = w.unwrap(ServiceMapping::Basic, &any_info()).unwrap_err();
        assert_eq!(err, ReadError::TooShort {
            mapping: ServiceMapping::Basic,
            expected: 28,
            actual: n as u64,
        });
    }
}

#[test]
fn basic_request_name_overruns_buffer() {
    // 28 header bytes whose name-length field asks for 5 more than the
    // buffer holds.
    let mut wire = vec![0u8; 24];
    wire.extend_from_slice(&[5, 0, 0, 0]);
    let w = RequestWrapper::from_bytes_and_ri(&wire, RepresentationIdentifier::CdrLe);
    let err = w.unwrap(ServiceMapping::Basic, &any_info()).unwrap_err();
    assert_eq!(err, ReadError::TooShort {
        mapping: ServiceMapping::Basic,
        expected: 33,
        actual: 28,
    });
}

#[test]
fn basic_response_too_short() {
    let short = vec![0u8; 27];
    let w = ResponseWrapper::from_bytes_and_ri(&short, RepresentationIdentifier::CdrBe);
    let err = w.unwrap(ServiceMapping::Basic, &any_info(), counting_guid()).unwrap_err();
    assert_eq!(err, ReadError::TooShort {
        mapping: ServiceMapping::Basic,
        expected: 28,
        actual: 27,
    });
}

#[test]
fn cyclone_too_short_every_length() {
    for n in 0..16 {
        let short = vec![0u8; n];
        let w = RequestWrapper::from_bytes_and_ri(&short, RepresentationIdentifier::CdrLe);
        let err = w.unwrap(ServiceMapping::Cyclone, &any_info()).unwrap_err();
        assert_eq!(err, ReadError::TooShort {
            mapping: ServiceMapping::Cyclone,
            expected: 16,
            actual: n as u64,
        });
        let rw = ResponseWrapper::from_bytes_and_ri(&short, RepresentationIdentifier::CdrLe);
        let rerr = rw.unwrap(ServiceMapping::Cyclone, &any_info(), counting_guid()).unwrap_err();
        assert_eq!(rerr, ReadError::TooShort {
            mapping: ServiceMapping::Cyclone,
            expected: 16,
            actual: n as u64,
        });
    }
}

#[test]
fn enhanced_response_missing_related_identity_fails() {
    let payload = vec![1u8, 2, 3];
    let w = ResponseWrapper::new(ServiceMapping::Enhanced, rid7(),
        RepresentationIdentifier::CdrLe, &payload);
    let si = SampleIdentity {
        writer_guid: counting_guid(),
        sequence_number: SequenceNumber::from_high_low(0, 7),
    };
    let info = MessageInfo::new(counting_guid(), si, None);
    let err = w.unwrap(ServiceMapping::Enhanced, &info, counting_guid()).unwrap_err();
    assert_eq!(err, ReadError::MissingRelatedIdentity);
}

#[test]
fn cyclone_splice_ignores_sender_upper_half() {
    let client = counting_guid();
    let r = rid7();
    let payload = vec![6u8];
    let w = ResponseWrapper::new(ServiceMapping::Cyclone, r, RepresentationIdentifier::CdrLe,
        &payload);
    let w2 = ResponseWrapper::new(ServiceMapping::Cyclone, r, RepresentationIdentifier::CdrLe,
        &payload);
    // Two senders that differ only in their upper half.
    let sender_a = Guid::from_bytes([
        0x11, 0x22, 0x33, 0x44, 0x55, 0x66, 0x77, 0x88, 101, 102, 103, 104, 105, 106, 107, 108,
    ]);
    let sender_b = Guid::from_bytes([
        0x99, 0xaa, 0xbb, 0xcc, 0xdd, 0xee, 0xff, 0x00, 101, 102, 103, 104, 105, 106, 107, 108,
    ]);
    let si = SampleIdentity { writer_guid: client, sequence_number: r.sequence_number };
    let (id_a, _) = w.unwrap(ServiceMapping::Cyclone, &MessageInfo::new(sender_a, si, None),
        client).unwrap();
    let (id_b, _) = w2.unwrap(ServiceMapping::Cyclone, &MessageInfo::new(sender_b, si, None),
        client).unwrap();
    assert_eq!(id_a, id_b);
    let spliced = id_a.writer_guid.to_bytes();
    assert_eq!(&spliced[0..8], &client.to_bytes()[0..8]);
    assert_eq!(&spliced[8..16], &[101, 102, 103, 104, 105, 106, 107, 108]);
}
