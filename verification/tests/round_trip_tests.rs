//! Round-trip behaviour of wrap and unwrap for each mapping.
use service_wrappers::cdr::RepresentationIdentifier;
use service_wrappers::request_id::{Guid, RmwRequestId, SampleIdentity, SequenceNumber};
use service_wrappers::wrappers::{MessageInfo, RequestWrapper, ResponseWrapper, Wrapper};
use service_wrappers::ServiceMapping;

fn guid(bytes: [u8; 16]) -> Guid {
    Guid::from_bytes(bytes)
}

fn counting_guid() -> Guid {
    guid([1, 2, 3, 4, 5, 6, 7, 8, 9, 10, 11, 12, 13, 14, 15, 16])
}

fn rid(g: Guid, high: i32, low: u32) -> RmwRequestId {
    RmwRequestId { writer_guid: g, sequence_number: SequenceNumber::from_high_low(high, low) }
}

fn identity_of(r: RmwRequestId) -> SampleIdentity {
    SampleIdentity { writer_guid: r.writer_guid, sequence_number: r.sequence_number }
}

#[test]
fn basic_request_round_trip_little_endian() {
    let r = rid(counting_guid(), 0, 7);
    let payload = vec![2u8, 0, 0, 0, 0, 0, 0, 0, 4, 0, 0, 0, 0, 0, 0, 0];
    let w = RequestWrapper::new(ServiceMapping::Basic, r, RepresentationIdentifier::CdrLe,
        &payload);
    let info = MessageInfo::new(counting_guid(), identity_of(r), None);
    let (got_id, got_payload) = w.unwrap(ServiceMapping::Basic, &info).unwrap();
    assert_eq!(got_id, r);
    assert_eq!(got_payload, payload);
}

#[test]
fn basic_request_round_trip_big_endian() {
    let r = rid(counting_guid(), -3, 0xdead_beef);
    let payload = vec![7u8, 7, 7];
    let w = RequestWrapper::new(ServiceMapping::Basic, r, RepresentationIdentifier::CdrBe,
        &payload);
    let info = MessageInfo::new(counting_guid(), identity_of(r), None);
    let (got_id, got_payload) = w.unwrap(ServiceMapping::Basic, &info).unwrap();
    assert_eq!(got_id, r);
    assert_eq!(got_payload, payload);
}

#[test]
fn basic_response_round_trip_both_orders() {
    for repr in [RepresentationIdentifier::CdrLe, RepresentationIdentifier::CdrBe] {
        let r = rid(counting_guid(), 1, 2);
        let payload = vec![6u8, 0, 0, 0, 0, 0, 0, 0];
        let w = ResponseWrapper::new(ServiceMapping::Basic, r, repr, &payload);
        let info = MessageInfo::new(counting_guid(), identity_of(r), None);
        let (got_id, got_payload) = w.unwrap(ServiceMapping::Basic, &info, counting_guid())
            .unwrap();
        assert_eq!(got_id, r);
        assert_eq!(got_payload, payload);
    }
}

#[test]
fn basic_round_trip_empty_payload() {
    let r = rid(counting_guid(), 0, 1);
    let w = RequestWrapper::new(ServiceMapping::Basic, r, RepresentationIdentifier::CdrLe, &[]);
    let info = MessageInfo::new(counting_guid(), identity_of(r), None);
    let (got_id, got_payload) = w.unwrap(ServiceMapping::Basic, &info).unwrap();
    assert_eq!(got_id, r);
    assert!(got_payload.is_empty());
}

#[test]
fn enhanced_request_round_trip_via_related_identity() {
    let r = rid(counting_guid(), 0, 7);
    let payload = vec![1u8, 2, 3, 4];
    let w = RequestWrapper::new(ServiceMapping::Enhanced, r, RepresentationIdentifier::CdrLe,
        &payload);
    // No header: the wire bytes are exactly the payload.
    assert_eq!(w.bytes(), payload);
    let info = MessageInfo::new(counting_guid(), identity_of(r), Some(identity_of(r)));
    let (got_id, got_payload) = w.unwrap(ServiceMapping::Enhanced, &info).unwrap();
    assert_eq!(got_id, r);
    assert_eq!(got_payload, payload);
}

#[test]
fn enhanced_request_falls_back_to_own_identity() {
    let sender = guid([9; 16]);
    let own = SampleIdentity {
        writer_guid: sender,
        sequence_number: SequenceNumber::from_high_low(0, 42),
    };
    let payload = vec![5u8];
    let w = RequestWrapper::new(ServiceMapping::Enhanced, rid(sender, 0, 42),
        RepresentationIdentifier::CdrLe, &payload);
    let info = MessageInfo::new(sender, own, None);
    let (got_id, _) = w.unwrap(ServiceMapping::Enhanced, &info).unwrap();
    assert_eq!(got_id.writer_guid, sender);
    assert_eq!(got_id.sequence_number, SequenceNumber::from_high_low(0, 42));
}

#[test]
fn enhanced_unknown_sequence_number_is_patched() {
    let g = guid([7; 16]);
    let own = SampleIdentity {
        writer_guid: guid([8; 16]),
        sequence_number: SequenceNumber::from_high_low(0, 77),
    };
    let related = SampleIdentity { writer_guid: g, sequence_number: SequenceNumber::unknown() };
    let w = RequestWrapper::new(ServiceMapping::Enhanced, rid(g, 0, 1),
        RepresentationIdentifier::CdrLe, &[1]);
    let info = MessageInfo::new(guid([8; 16]), own, Some(related));
    let (got_id, _) = w.unwrap(ServiceMapping::Enhanced, &info).unwrap();
    // The endpoint identifier comes from the related identity, the sequence
    // number from the sample's own identity.
    assert_eq!(got_id.writer_guid, g);
    assert_eq!(got_id.sequence_number, SequenceNumber::from_high_low(0, 77));
}

#[test]
fn cyclone_request_round_trip_server_side() {
    let client = counting_guid();
    let r = rid(client, 0, 9);
    let payload = vec![3u8, 1, 4, 1, 5];
    let w = RequestWrapper::new(ServiceMapping::Cyclone, r, RepresentationIdentifier::CdrLe,
        &payload);
    // The server reads the full client identifier from the sender metadata.
    let info = MessageInfo::new(client, identity_of(r), None);
    let (got_id, got_payload) = w.unwrap(ServiceMapping::Cyclone, &info).unwrap();
    assert_eq!(got_id, r);
    assert_eq!(got_payload, payload);
}

#[test]
fn cyclone_response_round_trip_client_side() {
    let client = counting_guid();
    let server_writer = guid([
        0xa0, 0xa1, 0xa2, 0xa3, 0xa4, 0xa5, 0xa6, 0xa7, 9, 10, 11, 12, 13, 14, 15, 16,
    ]);
    let r = rid(client, 0, 9);
    let payload = vec![6u8];
    let w = ResponseWrapper::new(ServiceMapping::Cyclone, r, RepresentationIdentifier::CdrBe,
        &payload);
    let info = MessageInfo::new(server_writer, identity_of(r), None);
    // The sender's writer carries the client's lower half back, so the
    // spliced identifier equals the client's own.
    let (got_id, got_payload) = w.unwrap(ServiceMapping::Cyclone, &info, client).unwrap();
    assert_eq!(got_id, r);
    assert_eq!(got_payload, payload);
}
