use bytes::BytesMut;
use flow_codec::frame::{
    get_connect_packet, get_frame, ConnectPacket, ConnectPacketFlags, Frame, FrameDecoder,
    FrameEncoder, MAX_FDB_FRAME_LENGTH,
};
use flow_codec::uid::{UID, WLTOKEN};
use flow_codec::CodecError;

fn all_wltokens() -> Vec<WLTOKEN> {
    vec![
        WLTOKEN::EndpointNotFound,
        WLTOKEN::PingPacket,
        WLTOKEN::AuthTenant,
        WLTOKEN::UnauthorizedEndpoint,
        WLTOKEN::ClientLeaderRegGetLeader,
        WLTOKEN::ClientLeaderRegOpenDatabase,
        WLTOKEN::LeaderElectionRegCandidacy,
        WLTOKEN::LeaderElectionRegElectionResult,
        WLTOKEN::LeaderElectionRegLeaderHeartBeat,
        WLTOKEN::LeaderElectionRegForward,
        WLTOKEN::ProtocolInfo,
        WLTOKEN::GenerationRegRead,
        WLTOKEN::GenerationRegWrite,
        WLTOKEN::ClientLeaderRegDescriptorMutable,
        WLTOKEN::ConfigTxnGetGeneration,
        WLTOKEN::ConfigTxnGet,
        WLTOKEN::ConfigTxnGetClasses,
        WLTOKEN::ConfigTxnGetKnobs,
        WLTOKEN::ConfigTxnCommit,
        WLTOKEN::ConfigFollowerGetSnapshotAndChanges,
        WLTOKEN::ConfigFollowerGetChanges,
        WLTOKEN::ConfigFollowerCompact,
        WLTOKEN::ConfigFollowerRollForward,
        WLTOKEN::ConfigFollowerGetCommittedVersion,
        WLTOKEN::Process,
        WLTOKEN::ReservedForTesting,
        WLTOKEN::ReservedCount,
    ]
}

#[test]
fn uid_parses_little_endian_words() {
    let mut raw = [0u8; 16];
    raw[0] = 1;
    raw[8] = 2;
    raw[15] = 0xff;
    let u = UID::new(raw).unwrap();
    assert_eq!(u.uid[0], 1);
    assert_eq!(u.uid[1], 0xff00_0000_0000_0002);
    assert!(u.is_valid());
    assert!(!UID { uid: [0, 0] }.is_valid());
}

#[test]
fn well_known_symmetry_for_every_code() {
    for (i, t) in all_wltokens().into_iter().enumerate() {
        let token = UID::well_known_token(t);
        assert_eq!(token.uid[0], u64::MAX);
        assert_eq!(token.uid[1], i as u64);
        assert_eq!(token.get_well_known_endpoint(), Some(t));
    }
}

#[test]
fn lookup_rejects_foreign_tokens() {
    assert_eq!(UID { uid: [7, 4] }.get_well_known_endpoint(), None);
    assert_eq!(UID { uid: [u64::MAX, 27] }.get_well_known_endpoint(), None);
}

#[test]
fn adjusted_token_recovers_code_and_is_injective() {
    let base = UID::well_known_token(WLTOKEN::ClientLeaderRegGetLeader);
    let mut seen = Vec::new();
    for index in 0u32..16 {
        let adj = base.get_adjusted_token(index);
        // Mask the adjustment artifacts: restore the all-ones first word and
        // remove the index from the low 32 bits of the second word.
        let masked = UID { uid: [u64::MAX, (adj.uid[1] & 0xffff_ffff) - index as u64] };
        assert_eq!(masked.get_well_known_endpoint(), Some(WLTOKEN::ClientLeaderRegGetLeader));
        assert!(!seen.contains(&adj.uid[0]));
        seen.push(adj.uid[0]);
    }
}

#[test]
fn random_tokens_are_usable() {
    let t = UID::random_token();
    let frame = Frame::new_reply(t, b"x".to_vec());
    assert!(frame.validate().is_ok());
}

#[test]
fn connect_packet_round_trip() {
    let packet = ConnectPacket::new();
    let mut buf = BytesMut::new();
    buf.extend_from_slice(&packet.as_bytes());
    buf.extend_from_slice(b"tail");
    let parsed = get_connect_packet(&mut buf).unwrap().expect("packet is complete");
    assert_eq!(parsed, packet);
    assert_eq!(parsed.version_flags, 1);
    assert_eq!(parsed.version, 0xfdb00b072000000);
    assert_eq!(parsed.canonical_remote_port, 6789);
    assert_eq!(parsed.connection_id, 1);
    assert_eq!(parsed.canonical_remote_ip4, 0x7f00_0001);
    assert_eq!(parsed.connect_packet_flags, ConnectPacketFlags::IPV4);
    assert_eq!(parsed.canonical_remote_ip6, vec![0u8; 16]);
    assert_eq!(&buf[..], b"tail");
}

#[test]
fn connect_packet_bad_flags_is_fatal() {
    let mut wire = ConnectPacket::new().as_bytes();
    wire[26] = 7;
    let mut buf = BytesMut::from(&wire[..]);
    assert_eq!(get_connect_packet(&mut buf).err(), Some(CodecError::BadAddressFlags));
}

#[test]
fn connect_packet_short_declared_length_is_fatal() {
    let mut buf = BytesMut::new();
    buf.extend_from_slice(&u32::to_le_bytes(10));
    buf.extend_from_slice(&[0u8; 10]);
    assert_eq!(get_connect_packet(&mut buf).err(), Some(CodecError::HandshakeTooShort));
}

#[test]
fn frame_round_trip_through_decoder() {
    let token = UID::well_known_token(WLTOKEN::ClientLeaderRegGetLeader);
    let frame = Frame::new_reply(token, b"payload bytes".to_vec());
    assert!(frame.checksum.is_some());

    let mut encoder = FrameEncoder::new();
    let mut wire = BytesMut::new();
    encoder.encode(frame.clone(), &mut wire).unwrap();

    let mut decoder = FrameDecoder::new();
    let decoded = decoder.decode(&mut wire).unwrap().expect("one whole frame");
    assert_eq!(decoded, frame);
    assert!(decoded.validate().is_ok());
    assert_eq!(wire.len(), 0);
}

#[test]
fn encoder_writes_handshake_only_once() {
    let token = UID::well_known_token(WLTOKEN::PingPacket);
    let first = Frame::new_reply(token, b"one".to_vec());
    let second = Frame::new_reply(token, b"two".to_vec());

    let mut encoder = FrameEncoder::new();
    let mut wire = BytesMut::new();
    encoder.encode(first.clone(), &mut wire).unwrap();
    let after_first = wire.len();
    encoder.encode(second.clone(), &mut wire).unwrap();
    assert_eq!(after_first, 44 + 12 + 16 + 3);
    assert_eq!(wire.len(), after_first + 12 + 16 + 3);

    let mut decoder = FrameDecoder::new();
    assert_eq!(decoder.decode(&mut wire).unwrap(), Some(first));
    assert_eq!(decoder.decode(&mut wire).unwrap(), Some(second));
    assert_eq!(decoder.decode(&mut wire).unwrap(), None);
}

#[test]
fn partial_buffer_yields_nothing_until_complete() {
    let token = UID { uid: [0xdead, 0xbeef] };
    let frame = Frame::new_reply(token, b"stream me".to_vec());
    let mut stream = ConnectPacket::new().as_bytes();
    stream.extend_from_slice(&frame.as_bytes().unwrap());

    let mut decoder = FrameDecoder::new();
    let mut buf = BytesMut::new();
    let last = stream.len() - 1;
    for (i, b) in stream.iter().enumerate() {
        buf.extend_from_slice(&[*b]);
        let step = decoder.decode(&mut buf).unwrap();
        if i < last {
            assert_eq!(step, None);
        } else {
            assert_eq!(step, Some(frame.clone()));
        }
    }
    assert_eq!(buf.len(), 0);
}

#[test]
fn checksum_rejects_any_flipped_bit() {
    let token = UID { uid: [3, 4] };
    let frame = Frame::new_reply(token, b"integrity".to_vec());
    let wire = frame.as_bytes().unwrap();
    // Every bit from the checksum field on: the token and payload bits are
    // covered by the digest, and a flipped stored checksum no longer matches.
    for i in 4..wire.len() {
        for bit in 0..8 {
            let mut corrupt = wire.clone();
            corrupt[i] ^= 1 << bit;
            let mut buf = BytesMut::from(&corrupt[..]);
            let decoded = get_frame(&mut buf).unwrap().expect("framing is intact");
            assert_eq!(decoded.validate().err(), Some(CodecError::ChecksumMismatch));
        }
    }
}

#[test]
fn oversize_declared_frame_length_is_fatal() {
    let mut buf = BytesMut::new();
    buf.extend_from_slice(&u32::to_le_bytes(MAX_FDB_FRAME_LENGTH));
    buf.extend_from_slice(&[0u8; 24]);
    let before = buf.len();
    assert_eq!(get_frame(&mut buf).err(), Some(CodecError::FrameTooLong));
    assert_eq!(buf.len(), before);
}

#[test]
fn short_declared_frame_length_is_fatal() {
    let mut buf = BytesMut::new();
    buf.extend_from_slice(&u32::to_le_bytes(8));
    buf.extend_from_slice(&[0u8; 24]);
    assert_eq!(get_frame(&mut buf).err(), Some(CodecError::FrameTooShort));
}

#[test]
fn oversize_declared_handshake_length_is_fatal() {
    let mut buf = BytesMut::new();
    buf.extend_from_slice(&u32::to_le_bytes(MAX_FDB_FRAME_LENGTH + 5));
    buf.extend_from_slice(&[0u8; 8]);
    let mut decoder = FrameDecoder::new();
    assert_eq!(decoder.decode(&mut buf).err(), Some(CodecError::FrameTooLong));
}

#[test]
fn oversize_outbound_frame_is_a_construction_error() {
    let token = UID { uid: [1, 1] };
    let frame = Frame {
        token,
        checksum: Some(0),
        payload: vec![0u8; (MAX_FDB_FRAME_LENGTH - 16) as usize],
    };
    assert_eq!(frame.as_bytes().err(), Some(CodecError::FrameTooLong));
    let mut encoder = FrameEncoder::new();
    let mut wire = BytesMut::new();
    assert_eq!(encoder.encode(frame, &mut wire).err(), Some(CodecError::FrameTooLong));
    assert_eq!(wire.len(), 0);
}

#[test]
fn unsealed_frame_passes_validation() {
    let frame = Frame { token: UID { uid: [1, 2] }, checksum: None, payload: b"x".to_vec() };
    assert!(frame.validate().is_ok());
}
