use flow_codec::file_identifier::{ParsedFileIdentifier, WrapperKind};
use flow_codec::frame::Frame;
use flow_codec::get_leader::{
    deserialize_reply, deserialize_request, serialize_reply, serialize_request,
};
use flow_codec::uid::{UID, WLTOKEN};
use flow_codec::CodecError;

fn captured_get_leader_request() -> Vec<u8> {
    vec![
        0x24, 0x00, 0x00, 0x00, 0xc7, 0x46, 0x03, 0x00, 0x00, 0x00, 0x00, 0x00, 0x00, 0x00, 0x06,
        0x00, 0x08, 0x00, 0x04, 0x00, 0x0a, 0x00, 0x1c, 0x00, 0x14, 0x00, 0x04, 0x00, 0x18, 0x00,
        0x06, 0x00, 0x14, 0x00, 0x04, 0x00, 0x16, 0x00, 0x00, 0x00, 0x04, 0x00, 0x00, 0x00, 0x18,
        0x00, 0x00, 0x00, 0x00, 0x00, 0x00, 0x00, 0x00, 0x00, 0x00, 0x00, 0x00, 0x00, 0x00, 0x00,
        0x00, 0x00, 0x00, 0x00, 0x24, 0x00, 0x00, 0x00, 0x08, 0x00, 0x00, 0x00, 0x00, 0x00, 0x00,
        0x00, 0x2e, 0x00, 0x00, 0x00, 0x9c, 0xed, 0xf4, 0xc0, 0x26, 0xee, 0x0b, 0x68, 0x1d, 0x00,
        0x00, 0x00, 0x1e, 0x0e, 0xe3, 0xd1, 0x00, 0x00, 0x00, 0x00, 0x07, 0x00, 0x00, 0x00, 0x74,
        0x65, 0x73, 0x74, 0x4b, 0x65, 0x79, 0x00,
    ]
}

fn captured_get_leader_reply() -> Vec<u8> {
    vec![
        0x28, 0x00, 0x00, 0x00, 0x6a, 0x3d, 0x7f, 0x02, 0x00, 0x00, 0x06, 0x00, 0x08, 0x00, 0x04,
        0x00, 0x06, 0x00, 0x06, 0x00, 0x04, 0x00, 0x08, 0x00, 0x09, 0x00, 0x08, 0x00, 0x04, 0x00,
        0x0a, 0x00, 0x19, 0x00, 0x04, 0x00, 0x14, 0x00, 0x18, 0x00, 0x12, 0x00, 0x00, 0x00, 0x08,
        0x00, 0x00, 0x00, 0x02, 0x00, 0x00, 0x00, 0x16, 0x00, 0x00, 0x00, 0xc9, 0x44, 0x74, 0x36,
        0xd1, 0x47, 0xaa, 0x47, 0x35, 0x7f, 0x4d, 0x85, 0x96, 0x3d, 0x1d, 0xfa, 0x08, 0x00, 0x00,
        0x00, 0x00, 0x00, 0x00, 0x00, 0x0c, 0x00, 0x00, 0x00, 0x58, 0x58, 0x58, 0x58, 0x59, 0x59,
        0x59, 0x59, 0x5a, 0x5a, 0x5a, 0x5a,
    ]
}

#[test]
fn test_leader_info() {
    let buffer_16_get_leader_request = captured_get_leader_request();
    let buffer_7_error_or_i10_leader_info_e = captured_get_leader_reply();

    println!("{:x?}", deserialize_request(&buffer_16_get_leader_request).unwrap());
    println!("{:x?}", deserialize_reply(&buffer_7_error_or_i10_leader_info_e).unwrap());
}

#[test]
fn request_scenario_fields() {
    let req = deserialize_request(&captured_get_leader_request()).unwrap();
    assert_eq!(req.key, b"testKey".to_vec());
    assert_eq!(req.known_leader, UID { uid: [0, 0] });
    assert_eq!(req.reply_promise, UID { uid: [0x680bee26c0f4ed9c, 0xd1e30e1e0000001d] });
}

#[test]
fn reply_scenario_fields() {
    let reply = deserialize_reply(&captured_get_leader_reply()).unwrap();
    let info = reply.expect("value is present").expect("value is not an error");
    assert_eq!(info.serialized_info, b"XXXXYYYYZZZZ".to_vec());
    assert!(!info.forward);
    assert_eq!(info.change_id, UID { uid: [0x47aa47d1367444c9, 0xfa1d3d96854d7f35] });
}

// The union type byte of the captured reply sits at offset 48 (the root
// table's first field).
#[test]
fn reply_outer_absent_wins_over_payload() {
    let mut buf = captured_get_leader_reply();
    buf[48] = 0;
    assert_eq!(deserialize_reply(&buf).unwrap(), None);
}

#[test]
fn reply_error_arm_is_surfaced() {
    let mut buf = captured_get_leader_reply();
    buf[48] = 1;
    match deserialize_reply(&buf).unwrap() {
        Some(Err(carried)) => assert_eq!(carried.error_bytes, buf),
        other => panic!("expected the carried error, got {:x?}", other),
    }
}

#[test]
fn reply_unknown_type_is_absent() {
    let mut buf = captured_get_leader_reply();
    buf[48] = 7;
    assert_eq!(deserialize_reply(&buf).unwrap(), None);
}

#[test]
fn truncated_reply_is_a_schema_error() {
    let buf = captured_get_leader_reply();
    assert_eq!(deserialize_reply(&buf[0..3]), Err(CodecError::SchemaDecode));
    assert_eq!(deserialize_request(&captured_get_leader_request()[0..40]).err(),
        Some(CodecError::SchemaDecode));
}

#[test]
fn peek_identifier_of_captured_payloads() {
    let req_frame =
        Frame { token: UID { uid: [1, 2] }, checksum: None, payload: captured_get_leader_request() };
    let id = req_frame.peek_file_identifier().unwrap();
    assert_eq!(id.file_identifier, 214727);
    assert_eq!(id.inner_wrapper, WrapperKind::Plain);
    assert_eq!(id.outer_wrapper, WrapperKind::Plain);

    let reply_frame =
        Frame { token: UID { uid: [1, 2] }, checksum: None, payload: captured_get_leader_reply() };
    let id = reply_frame.peek_file_identifier().unwrap();
    assert_eq!(id.file_identifier, 8338794);
    assert_eq!(id.inner_wrapper, WrapperKind::ErrorOr);
    assert_eq!(id.outer_wrapper, WrapperKind::Plain);
}

#[test]
fn peek_identifier_rejects_short_and_unknown() {
    let short = Frame { token: UID { uid: [0, 1] }, checksum: None, payload: vec![1, 2, 3] };
    assert_eq!(short.peek_file_identifier().err(), Some(CodecError::PayloadTooShort));

    // Wrapper nibble 0xf is outside the vocabulary.
    let bad = Frame {
        token: UID { uid: [0, 1] },
        checksum: None,
        payload: vec![0, 0, 0, 0, 0x6a, 0x3d, 0x7f, 0xf2],
    };
    assert_eq!(bad.peek_file_identifier().err(), Some(CodecError::UnknownWrapper));
}

#[test]
fn serialize_request_round_trip() {
    let known = UID { uid: [5, 6] };
    let reply = UID { uid: [7, 8] };
    let frame = serialize_request(b"testKey", known, reply).unwrap();
    assert_eq!(frame.token, UID::well_known_token(WLTOKEN::ClientLeaderRegGetLeader));
    assert!(frame.validate().is_ok());
    let id = frame.peek_file_identifier().unwrap();
    assert_eq!(id.file_identifier, 214727);
    assert_eq!(id.inner_wrapper, WrapperKind::Plain);
    assert_eq!(id.outer_wrapper, WrapperKind::Plain);
    let req = deserialize_request(&frame.payload).unwrap();
    assert_eq!(req.key, b"testKey".to_vec());
    assert_eq!(req.known_leader, known);
    assert_eq!(req.reply_promise, reply);
}

#[test]
fn serialize_reply_round_trip() {
    let token = UID { uid: [11, 12] };
    let change_id = UID { uid: [13, 14] };
    let frame = serialize_reply(token, change_id, true, b"XXXXYYYYZZZZ").unwrap();
    assert_eq!(frame.token, token);
    assert!(frame.validate().is_ok());
    let id = frame.peek_file_identifier().unwrap();
    assert_eq!(id.file_identifier, 8338794);
    assert_eq!(id.inner_wrapper, WrapperKind::ErrorOr);
    assert_eq!(id.outer_wrapper, WrapperKind::Optional);
    let info = deserialize_reply(&frame.payload).unwrap().expect("present").expect("no error");
    assert_eq!(info.change_id, change_id);
    assert!(info.forward);
    assert_eq!(info.serialized_info, b"XXXXYYYYZZZZ".to_vec());
}

#[test]
fn serialize_request_rejects_oversize_key() {
    let key = vec![0u8; 1024 * 1024];
    let zero = UID { uid: [0, 0] };
    assert_eq!(serialize_request(&key, zero, zero).err(), Some(CodecError::FrameTooLong));
}

#[test]
fn file_identifier_wire_round_trip() {
    let tag = ParsedFileIdentifier {
        file_identifier: 8338794,
        inner_wrapper: WrapperKind::ErrorOr,
        outer_wrapper: WrapperKind::Optional,
        file_identifier_name: None,
    };
    let wire = tag.to_wire();
    assert_eq!(wire, 0x127f_3d6a);
    let parsed = ParsedFileIdentifier::new_from_wire(wire).unwrap();
    assert_eq!(parsed.file_identifier, tag.file_identifier);
    assert_eq!(parsed.inner_wrapper, tag.inner_wrapper);
    assert_eq!(parsed.outer_wrapper, tag.outer_wrapper);
}
