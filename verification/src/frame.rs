//! The frame codec: a stream decoder that consumes one connection handshake
//! and then a sequence of checksummed, length-delimited frames, and the
//! matching encoder.
//!
//! Wire layout, little-endian throughout:
//! - connect packet: `u32 length` (of everything after this field), `u64`
//!   packed version word (4 flag bits above a 60-bit version), `u16 port`,
//!   `u64 connection id`, `u32 ipv4`, `u16 address flags`, and 16 bytes of
//!   ipv6 address if the declared length leaves room for them;
//! - frame: `u32 length` (token plus payload, excluding this field and the
//!   checksum), `u64 checksum`, 16 token bytes, payload.

use vstd::bytes::*;
use vstd::prelude::*;

use crate::buf::{buf_advance, buf_contents, buf_copy_range, buf_extend, buf_len};
use crate::file_identifier::{spec_parse_file_identifier, ParsedFileIdentifier};
use crate::uid::UID;
use crate::CodecError;

verus! {

/// The hard cap on a declared frame or handshake length.  A declared length
/// at or above it is a fatal protocol error: the stream can no longer be
/// trusted to be aligned.
pub const MAX_FDB_FRAME_LENGTH: u32 = 1024 * 1024;

/// The 16-bit word that selects the peer's address family.
#[derive(Clone, Copy, PartialEq, Eq, Structural, Debug)]
pub enum ConnectPacketFlags {
    IPV4,
    IPV6,
}

/// The one-time handshake value exchanged before any frame.
#[derive(Clone, PartialEq, Eq, Debug)]
pub struct ConnectPacket {
    /// Four flag bits packed above the version on the wire.
    pub version_flags: u8,
    /// The 60-bit protocol version.
    pub version: u64,
    pub canonical_remote_port: u16,
    pub connection_id: u64,
    pub canonical_remote_ip4: u32,
    /// Which of the two addresses is populated; 16 bits on the wire.
    pub connect_packet_flags: ConnectPacketFlags,
    /// Always 16 bytes; all zero when the packet was too short to carry it.
    pub canonical_remote_ip6: Vec<u8>,
    /// How many benign bytes followed the known fields inside the declared
    /// length.  They are consumed, but kept observable here for diagnostics.
    pub trailing_bytes: u32,
}

/// One length-delimited, checksummed application message.
#[derive(Clone, PartialEq, Eq, Debug)]
pub struct Frame {
    pub token: UID,
    /// Always present on the wire; absent only for in-memory values that have
    /// not been sealed yet.
    pub checksum: Option<u64>,
    pub payload: Vec<u8>,
}

/// What the 64-bit integrity digest of a byte sequence is.
pub uninterp spec fn xxh3_64_of(data: Seq<u8>) -> u64;

/// Relies on xxhash_rust::xxh3::xxh3_64: a 64-bit digest determined by the
/// input bytes alone (default seed and secret).
#[verifier::external_body]
fn xxh3_64_digest(data: &Vec<u8>) -> (r: u64)
    ensures
        r == xxh3_64_of(data@),
{
    xxhash_rust::xxh3::xxh3_64(data.as_slice())
}

/// The checksum a frame must carry: the digest of the token bytes followed by
/// the payload bytes.
pub open spec fn spec_frame_checksum(t0: u64, t1: u64, payload: Seq<u8>) -> u64 {
    xxh3_64_of(spec_u64_to_le_bytes(t0) + spec_u64_to_le_bytes(t1) + payload)
}

/// Appends a slice to a byte vector.
pub(crate) fn append_slice(dst: &mut Vec<u8>, src: &[u8])
    ensures
        final(dst)@ == old(dst)@ + src@,
{
    let n = src.len();
    let mut i: usize = 0;
    while i < n
        invariant
            i <= n,
            n == src@.len(),
            dst@ == old(dst)@ + src@.subrange(0, i as int),
        decreases n - i,
    {
        dst.push(*vstd::slice::slice_index_get(src, i));
        assert(dst@ =~= old(dst)@ + src@.subrange(0, i + 1));
        i = i + 1;
    }
    assert(dst@ =~= old(dst)@ + src@);
}

/// A vector of `n` zero bytes.
fn zero_vec(n: usize) -> (v: Vec<u8>)
    ensures
        v@ =~= Seq::new(n as nat, |i: int| 0u8),
{
    let mut v: Vec<u8> = Vec::new();
    let mut i: usize = 0;
    while i < n
        invariant
            i <= n,
            v@ =~= Seq::new(i as nat, |j: int| 0u8),
        decreases n - i,
    {
        v.push(0u8);
        assert(v@ =~= Seq::new((i + 1) as nat, |j: int| 0u8));
        i = i + 1;
    }
    v
}

// ---------------------------------------------------------------------------
// The parse model: what a buffered byte sequence holds, stated over `Seq<u8>`.
// ---------------------------------------------------------------------------
/// The 16-bit little-endian value at offset `i`.
pub open spec fn spec_le16(s: Seq<u8>, i: int) -> u16 {
    spec_u16_from_le_bytes(s.subrange(i, i + 2))
}

/// The 32-bit little-endian value at offset `i`.
pub open spec fn spec_le32(s: Seq<u8>, i: int) -> u32 {
    spec_u32_from_le_bytes(s.subrange(i, i + 4))
}

/// The 64-bit little-endian value at offset `i`.
pub open spec fn spec_le64(s: Seq<u8>, i: int) -> u64 {
    spec_u64_from_le_bytes(s.subrange(i, i + 8))
}

/// The declared handshake length: the byte count of everything after the
/// length field itself.
pub open spec fn hs_declared_len(s: Seq<u8>) -> u32 {
    spec_le32(s, 0)
}

/// A declared handshake length acceptable to the decoder: under the cap and
/// long enough for the fixed fields.
pub open spec fn hs_len_ok(s: Seq<u8>) -> bool {
    hs_declared_len(s) < MAX_FDB_FRAME_LENGTH && hs_declared_len(s) >= 24
}

/// More bytes are needed before the handshake can be judged: either the
/// length field is not fully buffered, or the declared bytes are not all
/// there yet.
pub open spec fn hs_need_more(s: Seq<u8>) -> bool {
    s.len() < 12 || (hs_len_ok(s) && s.len() < 4 + hs_declared_len(s))
}

/// The packed version word, the flags in its top four bits.
pub open spec fn hs_version_word(s: Seq<u8>) -> u64 {
    spec_le64(s, 4)
}

pub open spec fn hs_version_flags(s: Seq<u8>) -> u8 {
    (hs_version_word(s) / 0x1000_0000_0000_0000) as u8
}

pub open spec fn hs_version(s: Seq<u8>) -> u64 {
    (hs_version_word(s) % 0x1000_0000_0000_0000) as u64
}

pub open spec fn hs_port(s: Seq<u8>) -> u16 {
    spec_le16(s, 12)
}

pub open spec fn hs_connection_id(s: Seq<u8>) -> u64 {
    spec_le64(s, 14)
}

pub open spec fn hs_ip4(s: Seq<u8>) -> u32 {
    spec_le32(s, 22)
}

pub open spec fn hs_flags16(s: Seq<u8>) -> u16 {
    spec_le16(s, 26)
}

/// The ipv6 address: present only if the declared length leaves 16 bytes
/// after the fixed fields, all-zero otherwise.
pub open spec fn hs_ip6(s: Seq<u8>) -> Seq<u8> {
    if hs_declared_len(s) >= 40 {
        s.subrange(28, 44)
    } else {
        Seq::new(16, |i: int| 0u8)
    }
}

/// How many declared bytes follow the known fields: whatever is left after
/// the 24 fixed bytes and, where the length leaves room for it, the address.
pub open spec fn hs_trailing(s: Seq<u8>) -> u32 {
    if hs_declared_len(s) >= 40 {
        (hs_declared_len(s) - 40) as u32
    } else {
        (hs_declared_len(s) - 24) as u32
    }
}

/// The fatal error a buffered handshake holds, if any.  An oversize or
/// too-short declared length is fatal as soon as the length is readable; an
/// unrecognized address-flags word is fatal once the whole packet is there.
pub open spec fn hs_error(s: Seq<u8>) -> Option<CodecError> {
    if s.len() < 12 {
        None
    } else if hs_declared_len(s) >= MAX_FDB_FRAME_LENGTH {
        Some(CodecError::FrameTooLong)
    } else if hs_declared_len(s) < 24 {
        Some(CodecError::HandshakeTooShort)
    } else if s.len() < 4 + hs_declared_len(s) {
        None
    } else if hs_flags16(s) > 1 {
        Some(CodecError::BadAddressFlags)
    } else {
        None
    }
}

/// A complete, acceptable handshake sits at the front of the buffer.
pub open spec fn hs_ok(s: Seq<u8>) -> bool {
    s.len() >= 12 && hs_len_ok(s) && s.len() >= 4 + hs_declared_len(s) && hs_flags16(s) <= 1
}

/// How many bytes the handshake consumes.
pub open spec fn hs_used(s: Seq<u8>) -> int {
    4 + hs_declared_len(s)
}

/// What consuming a handshake from the front of `s` yields and leaves.
pub open spec fn spec_hs_outcome(
    s: Seq<u8>,
    r: Result<Option<ConnectPacket>, CodecError>,
    out: Seq<u8>,
) -> bool {
    match r {
        Ok(None) => hs_need_more(s) && out == s,
        Err(e) => hs_error(s) == Some(e) && out == s,
        Ok(Some(p)) => {
            &&& hs_ok(s)
            &&& p.version_flags == hs_version_flags(s)
            &&& p.version == hs_version(s)
            &&& p.canonical_remote_port == hs_port(s)
            &&& p.connection_id == hs_connection_id(s)
            &&& p.canonical_remote_ip4 == hs_ip4(s)
            &&& p.connect_packet_flags == (if hs_flags16(s) == 1 {
                ConnectPacketFlags::IPV6
            } else {
                ConnectPacketFlags::IPV4
            })
            &&& p.canonical_remote_ip6@ == hs_ip6(s)
            &&& p.trailing_bytes == hs_trailing(s)
            &&& out == s.skip(hs_used(s))
        },
    }
}

/// The declared frame length: token plus payload bytes.
pub open spec fn frame_declared_len(s: Seq<u8>) -> u32 {
    spec_le32(s, 0)
}

/// A declared frame length acceptable to the decoder: under the cap and at
/// least the 16 token bytes.
pub open spec fn frame_len_ok(s: Seq<u8>) -> bool {
    frame_declared_len(s) < MAX_FDB_FRAME_LENGTH && frame_declared_len(s) >= 16
}

/// More bytes are needed before a frame can be judged.
pub open spec fn frame_need_more(s: Seq<u8>) -> bool {
    s.len() < 28 || (frame_len_ok(s) && s.len() < 12 + frame_declared_len(s))
}

/// The fatal error a buffered frame holds, if any.
pub open spec fn frame_error(s: Seq<u8>) -> Option<CodecError> {
    if s.len() < 28 {
        None
    } else if frame_declared_len(s) >= MAX_FDB_FRAME_LENGTH {
        Some(CodecError::FrameTooLong)
    } else if frame_declared_len(s) < 16 {
        Some(CodecError::FrameTooShort)
    } else {
        None
    }
}

/// A complete, acceptable frame sits at the front of the buffer.
pub open spec fn frame_ok(s: Seq<u8>) -> bool {
    s.len() >= 28 && frame_len_ok(s) && s.len() >= 12 + frame_declared_len(s)
}

pub open spec fn frame_checksum_field(s: Seq<u8>) -> u64 {
    spec_le64(s, 4)
}

pub open spec fn frame_token0(s: Seq<u8>) -> u64 {
    spec_le64(s, 12)
}

pub open spec fn frame_token1(s: Seq<u8>) -> u64 {
    spec_le64(s, 20)
}

pub open spec fn frame_payload(s: Seq<u8>) -> Seq<u8> {
    s.subrange(28, 12 + frame_declared_len(s))
}

/// How many bytes the frame consumes.
pub open spec fn frame_used(s: Seq<u8>) -> int {
    12 + frame_declared_len(s)
}

/// What consuming a frame from the front of `s` yields and leaves.
pub open spec fn spec_frame_outcome(
    s: Seq<u8>,
    r: Result<Option<Frame>, CodecError>,
    out: Seq<u8>,
) -> bool {
    match r {
        Ok(None) => frame_need_more(s) && out == s,
        Err(e) => frame_error(s) == Some(e) && out == s,
        Ok(Some(f)) => {
            &&& frame_ok(s)
            &&& f.token.uid[0] == frame_token0(s)
            &&& f.token.uid[1] == frame_token1(s)
            &&& f.checksum == Some(frame_checksum_field(s))
            &&& f.payload@ == frame_payload(s)
            &&& out == s.skip(frame_used(s))
        },
    }
}

// ---------------------------------------------------------------------------
// Parsing
// ---------------------------------------------------------------------------
/// Attempts to consume one complete connect packet from the front of the
/// buffer.  `Ok(None)` consumes nothing and asks for more bytes; an error is
/// fatal to the connection and consumes nothing; on success exactly the
/// packet's bytes are consumed.
pub fn get_connect_packet(bytes: &mut bytes::BytesMut) -> (r: Result<
    Option<ConnectPacket>,
    CodecError,
>)
    ensures
        spec_hs_outcome(buf_contents(*old(bytes)), r, buf_contents(*final(bytes))),
{
    let ghost s = buf_contents(*bytes);
    let n = buf_len(bytes);
    if n < 12 {
        return Ok(None);
    }
    let len_bytes = buf_copy_range(bytes, 0, 4);
    let len = u32_from_le_bytes(len_bytes.as_slice());
    if len >= MAX_FDB_FRAME_LENGTH {
        return Err(CodecError::FrameTooLong);
    }
    if len < 24 {
        return Err(CodecError::HandshakeTooShort);
    }
    let total: usize = 4 + (len as usize);
    if n < total {
        return Ok(None);
    }
    let word_bytes = buf_copy_range(bytes, 4, 12);
    let word = u64_from_le_bytes(word_bytes.as_slice());
    let version_flags_word = word / 0x1000_0000_0000_0000;
    assert(version_flags_word < 16) by (nonlinear_arith)
        requires
            version_flags_word == word / 0x1000_0000_0000_0000,
    ;
    let version_flags: u8 = version_flags_word as u8;
    let version = word % 0x1000_0000_0000_0000;
    let port_bytes = buf_copy_range(bytes, 12, 14);
    let port = u16_from_le_bytes(port_bytes.as_slice());
    let conn_bytes = buf_copy_range(bytes, 14, 22);
    let connection_id = u64_from_le_bytes(conn_bytes.as_slice());
    let ip4_bytes = buf_copy_range(bytes, 22, 26);
    let ip4 = u32_from_le_bytes(ip4_bytes.as_slice());
    let flags_bytes = buf_copy_range(bytes, 26, 28);
    let flags16 = u16_from_le_bytes(flags_bytes.as_slice());
    if flags16 > 1 {
        return Err(CodecError::BadAddressFlags);
    }
    let connect_packet_flags = if flags16 == 1 {
        ConnectPacketFlags::IPV6
    } else {
        ConnectPacketFlags::IPV4
    };
    let canonical_remote_ip6 = if len >= 40 {
        buf_copy_range(bytes, 28, 44)
    } else {
        zero_vec(16)
    };
    let trailing_bytes: u32 = if len >= 40 {
        len - 40
    } else {
        len - 24
    };
    buf_advance(bytes, total);
    Ok(
        Some(
            ConnectPacket {
                version_flags,
                version,
                canonical_remote_port: port,
                connection_id,
                canonical_remote_ip4: ip4,
                connect_packet_flags,
                canonical_remote_ip6,
                trailing_bytes,
            },
        ),
    )
}

/// Attempts to consume one complete frame from the front of the buffer.
/// `Ok(None)` consumes nothing and asks for more bytes; an error is fatal to
/// the connection and consumes nothing; on success exactly the frame's bytes
/// are consumed and the stored checksum is taken verbatim, not validated.
pub fn get_frame(bytes: &mut bytes::BytesMut) -> (r: Result<Option<Frame>, CodecError>)
    ensures
        spec_frame_outcome(buf_contents(*old(bytes)), r, buf_contents(*final(bytes))),
{
    let n = buf_len(bytes);
    if n < 28 {
        return Ok(None);
    }
    let len_bytes = buf_copy_range(bytes, 0, 4);
    let len = u32_from_le_bytes(len_bytes.as_slice());
    if len >= MAX_FDB_FRAME_LENGTH {
        return Err(CodecError::FrameTooLong);
    }
    if len < 16 {
        return Err(CodecError::FrameTooShort);
    }
    let total: usize = 12 + (len as usize);
    if n < total {
        return Ok(None);
    }
    let checksum_bytes = buf_copy_range(bytes, 4, 12);
    let checksum = u64_from_le_bytes(checksum_bytes.as_slice());
    let t0_bytes = buf_copy_range(bytes, 12, 20);
    let t0 = u64_from_le_bytes(t0_bytes.as_slice());
    let t1_bytes = buf_copy_range(bytes, 20, 28);
    let t1 = u64_from_le_bytes(t1_bytes.as_slice());
    let payload = buf_copy_range(bytes, 28, total);
    buf_advance(bytes, total);
    Ok(Some(Frame { token: UID { uid: [t0, t1] }, checksum: Some(checksum), payload }))
}

// ---------------------------------------------------------------------------
// Encoding
// ---------------------------------------------------------------------------
/// The packed version word: four flag bits above the 60-bit version.
pub open spec fn spec_version_word(p: ConnectPacket) -> u64 {
    ((p.version_flags as u64) << 60) | p.version
}

/// The wire bytes of a connect packet: a constant declared length of 40,
/// then the fixed fields, then the 16 ipv6 bytes.
pub open spec fn spec_connect_packet_wire(p: ConnectPacket) -> Seq<u8> {
    spec_u32_to_le_bytes(40) + spec_u64_to_le_bytes(spec_version_word(p)) + spec_u16_to_le_bytes(
        p.canonical_remote_port,
    ) + spec_u64_to_le_bytes(p.connection_id) + spec_u32_to_le_bytes(p.canonical_remote_ip4)
        + spec_u16_to_le_bytes(
        match p.connect_packet_flags {
            ConnectPacketFlags::IPV4 => 0u16,
            ConnectPacketFlags::IPV6 => 1u16,
        },
    ) + p.canonical_remote_ip6@
}

/// The wire bytes of a frame: declared length, checksum (written only when
/// present), the two token words, the payload.
pub open spec fn spec_frame_wire(f: Frame) -> Seq<u8> {
    spec_u32_to_le_bytes((16 + f.payload@.len()) as u32) + (match f.checksum {
        Some(c) => spec_u64_to_le_bytes(c),
        None => Seq::<u8>::empty(),
    }) + spec_u64_to_le_bytes(f.token.uid[0]) + spec_u64_to_le_bytes(f.token.uid[1]) + f.payload@
}

impl ConnectPacket {
    /// The handshake this client sends on a fresh connection.
    pub fn new() -> (p: ConnectPacket)
        ensures
            p.version_flags == 1,
            p.version == 0xfdb00b072000000,
            p.canonical_remote_port == 6789,
            p.connection_id == 1,
            p.canonical_remote_ip4 == 0x7f00_0001,
            p.connect_packet_flags == ConnectPacketFlags::IPV4,
            p.canonical_remote_ip6@ == Seq::new(16, |i: int| 0u8),
            p.trailing_bytes == 0,
    {
        ConnectPacket {
            version_flags: 1,
            version: 0xfdb00b072000000,
            canonical_remote_port: 6789,
            connection_id: 1,
            canonical_remote_ip4: 0x7f00_0001,
            connect_packet_flags: ConnectPacketFlags::IPV4,
            canonical_remote_ip6: zero_vec(16),
            trailing_bytes: 0,
        }
    }

    /// Serializes the packet: the declared length counts everything after the
    /// length field, which is 40 bytes for the fixed fields plus the address.
    pub fn as_bytes(&self) -> (r: Vec<u8>)
        requires
            self.version_flags <= 15,
            self.version < 0x1000_0000_0000_0000,
            self.canonical_remote_ip6@.len() == 16,
        ensures
            r@ == spec_connect_packet_wire(*self),
            r@.len() == 44,
    {
        proof {
            lemma_auto_spec_u16_to_from_le_bytes();
            lemma_auto_spec_u32_to_from_le_bytes();
            lemma_auto_spec_u64_to_from_le_bytes();
        }
        let mut v = u32_to_le_bytes(40);
        let word = ((self.version_flags as u64) << 60) | self.version;
        let mut t = u64_to_le_bytes(word);
        v.append(&mut t);
        let mut t = u16_to_le_bytes(self.canonical_remote_port);
        v.append(&mut t);
        let mut t = u64_to_le_bytes(self.connection_id);
        v.append(&mut t);
        let mut t = u32_to_le_bytes(self.canonical_remote_ip4);
        v.append(&mut t);
        let flags16: u16 = match self.connect_packet_flags {
            ConnectPacketFlags::IPV4 => 0,
            ConnectPacketFlags::IPV6 => 1,
        };
        let mut t = u16_to_le_bytes(flags16);
        v.append(&mut t);
        append_slice(&mut v, self.canonical_remote_ip6.as_slice());
        assert(v@ =~= spec_connect_packet_wire(*self));
        v
    }
}

impl Frame {
    /// Serializes the frame, or reports that its declared length would reach
    /// the cap instead of producing an unframeable message.
    pub fn as_bytes(&self) -> (r: Result<Vec<u8>, CodecError>)
        ensures
            match r {
                Ok(v) => 16 + self.payload@.len() < MAX_FDB_FRAME_LENGTH && v@ == spec_frame_wire(
                    *self,
                ),
                Err(e) => 16 + self.payload@.len() >= MAX_FDB_FRAME_LENGTH && e
                    == CodecError::FrameTooLong,
            },
    {
        proof {
            lemma_auto_spec_u32_to_from_le_bytes();
            lemma_auto_spec_u64_to_from_le_bytes();
        }
        if self.payload.len() >= (MAX_FDB_FRAME_LENGTH - 16) as usize {
            return Err(CodecError::FrameTooLong);
        }
        let len: u32 = (self.payload.len() as u32) + 16;
        let mut v = u32_to_le_bytes(len);
        match self.checksum {
            Some(checksum) => {
                let mut t = u64_to_le_bytes(checksum);
                v.append(&mut t);
            },
            None => {},
        };
        let mut t = u64_to_le_bytes(self.token.uid[0]);
        v.append(&mut t);
        let mut t = u64_to_le_bytes(self.token.uid[1]);
        v.append(&mut t);
        append_slice(&mut v, self.payload.as_slice());
        assert(v@ =~= spec_frame_wire(*self));
        Ok(v)
    }

    /// Reads the schema tag out of the payload without decoding the rest:
    /// the 32-bit wire tag sits at payload bytes 4..8.
    pub fn peek_file_identifier(&self) -> (r: Result<ParsedFileIdentifier, CodecError>)
        ensures
            match r {
                Ok(id) => self.payload@.len() >= 8 && spec_parse_file_identifier(
                    spec_le32(self.payload@, 4),
                ) == Some(id),
                Err(e) => if self.payload@.len() < 8 {
                    e == CodecError::PayloadTooShort
                } else {
                    spec_parse_file_identifier(spec_le32(self.payload@, 4)) is None && e
                        == CodecError::UnknownWrapper
                },
            },
    {
        if self.payload.len() < 8 {
            return Err(CodecError::PayloadTooShort);
        }
        let wire_bytes = vstd::slice::slice_subrange(self.payload.as_slice(), 4, 8);
        let wire = u32_from_le_bytes(wire_bytes);
        ParsedFileIdentifier::new_from_wire(wire)
    }

    /// The digest of the token bytes followed by the payload bytes.
    fn compute_checksum(&self) -> (r: u64)
        ensures
            r == spec_frame_checksum(self.token.uid[0], self.token.uid[1], self.payload@),
    {
        let mut data = u64_to_le_bytes(self.token.uid[0]);
        let mut t = u64_to_le_bytes(self.token.uid[1]);
        data.append(&mut t);
        append_slice(&mut data, self.payload.as_slice());
        xxh3_64_digest(&data)
    }

    /// Checks the stored checksum against the recomputed one.  A frame whose
    /// checksum was never filled in passes; a mismatch is an integrity error.
    pub fn validate(&self) -> (r: Result<(), CodecError>)
        ensures
            match r {
                Ok(_) => match self.checksum {
                    Some(c) => c == spec_frame_checksum(
                        self.token.uid[0],
                        self.token.uid[1],
                        self.payload@,
                    ),
                    None => true,
                },
                Err(e) => self.checksum is Some && self.checksum->0 != spec_frame_checksum(
                    self.token.uid[0],
                    self.token.uid[1],
                    self.payload@,
                ) && e == CodecError::ChecksumMismatch,
            },
    {
        match self.checksum {
            Some(checksum) => {
                if self.compute_checksum() == checksum {
                    Ok(())
                } else {
                    Err(CodecError::ChecksumMismatch)
                }
            },
            None => Ok(()),
        }
    }

    /// Builds a frame and seals it: the checksum is computed here rather than
    /// left for a downstream validator to fill in.
    pub fn new_reply(token: UID, payload: Vec<u8>) -> (f: Frame)
        ensures
            f.token == token,
            f.payload == payload,
            f.checksum == Some(spec_frame_checksum(token.uid[0], token.uid[1], payload@)),
    {
        let mut frame = Frame { token, checksum: None, payload };
        let c = frame.compute_checksum();
        frame.checksum = Some(c);
        frame
    }
}

// ---------------------------------------------------------------------------
// The per-connection state machines
// ---------------------------------------------------------------------------
/// The decoding half of a connection: consumes one handshake, then frames.
pub struct FrameDecoder {
    /// True until the handshake has been consumed.
    pub reading_connect_packet: bool,
}

impl FrameDecoder {
    pub fn new() -> (d: FrameDecoder)
        ensures
            d.reading_connect_packet,
    {
        FrameDecoder { reading_connect_packet: true }
    }

    /// One decoding step.  While the handshake is outstanding it is consumed
    /// first (and the step may then go on to yield the first frame from the
    /// remaining bytes); afterwards each step yields at most one frame.
    /// `Ok(None)` always means: nothing consumed beyond a completed
    /// handshake, supply more bytes.
    pub fn decode(&mut self, src: &mut bytes::BytesMut) -> (r: Result<Option<Frame>, CodecError>)
        ensures
            ({
                let s = buf_contents(*old(src));
                let out = buf_contents(*final(src));
                if old(self).reading_connect_packet {
                    if hs_need_more(s) {
                        &&& r == Ok::<Option<Frame>, CodecError>(None)
                        &&& out == s
                        &&& final(self).reading_connect_packet
                    } else if hs_error(s) is Some {
                        &&& r == Err::<Option<Frame>, CodecError>(hs_error(s)->0)
                        &&& out == s
                        &&& final(self).reading_connect_packet
                    } else {
                        &&& hs_ok(s)
                        &&& spec_frame_outcome(s.skip(hs_used(s)), r, out)
                        &&& !final(self).reading_connect_packet
                    }
                } else {
                    spec_frame_outcome(s, r, out) && !final(self).reading_connect_packet
                }
            }),
    {
        if self.reading_connect_packet {
            match get_connect_packet(src) {
                Err(e) => {
                    return Err(e);
                },
                Ok(None) => {
                    return Ok(None);
                },
                Ok(Some(_)) => {
                    self.reading_connect_packet = false;
                },
            }
        }
        get_frame(src)
    }
}

/// The encoding half of a connection: writes the handshake once, before the
/// first frame.
pub struct FrameEncoder {
    /// True until the handshake has been written.
    pub writing_connect_packet: bool,
}

impl FrameEncoder {
    pub fn new() -> (e: FrameEncoder)
        ensures
            e.writing_connect_packet,
    {
        FrameEncoder { writing_connect_packet: true }
    }

    /// Appends one frame's wire bytes to the output buffer, preceded by the
    /// handshake if this is the connection's first write.  An oversize frame
    /// is rejected before anything is written.
    pub fn encode(&mut self, frame: Frame, dst: &mut bytes::BytesMut) -> (r: Result<
        (),
        CodecError,
    >)
        ensures
            ({
                let d0 = buf_contents(*old(dst));
                let d1 = buf_contents(*final(dst));
                match r {
                    Ok(_) => {
                        &&& 16 + frame.payload@.len() < MAX_FDB_FRAME_LENGTH
                        &&& d1 == d0 + (if old(self).writing_connect_packet {
                            spec_client_handshake_wire()
                        } else {
                            Seq::<u8>::empty()
                        }) + spec_frame_wire(frame)
                        &&& !final(self).writing_connect_packet
                    },
                    Err(e) => {
                        &&& 16 + frame.payload@.len() >= MAX_FDB_FRAME_LENGTH
                        &&& e == CodecError::FrameTooLong
                        &&& d1 == d0
                        &&& final(self).writing_connect_packet
                            == old(self).writing_connect_packet
                    },
                }
            }),
    {
        let frame_bytes = match frame.as_bytes() {
            Ok(v) => v,
            Err(e) => {
                return Err(e);
            },
        };
        if self.writing_connect_packet {
            let packet = ConnectPacket::new();
            let packet_bytes = packet.as_bytes();
            assert(packet_bytes@ =~= spec_client_handshake_wire());
            buf_extend(dst, packet_bytes.as_slice());
            self.writing_connect_packet = false;
        } else {
            assert(buf_contents(*dst) =~= buf_contents(*old(dst)) + Seq::<u8>::empty());
        }
        buf_extend(dst, frame_bytes.as_slice());
        Ok(())
    }
}

/// The wire bytes of the handshake that `ConnectPacket::new` builds.
pub open spec fn spec_client_handshake_wire() -> Seq<u8> {
    spec_u32_to_le_bytes(40) + spec_u64_to_le_bytes((1u64 << 60) | 0xfdb00b072000000)
        + spec_u16_to_le_bytes(6789) + spec_u64_to_le_bytes(1) + spec_u32_to_le_bytes(0x7f00_0001)
        + spec_u16_to_le_bytes(0) + Seq::new(16, |i: int| 0u8)
}

// ---------------------------------------------------------------------------
// Laws
// ---------------------------------------------------------------------------
/// A packet whose fields fit their wire slots.
pub open spec fn spec_connect_packet_wf(p: ConnectPacket) -> bool {
    &&& p.version_flags <= 15
    &&& p.version < 0x1000_0000_0000_0000
    &&& p.canonical_remote_ip6@.len() == 16
}

/// Round trip for frames: the wire bytes of any frame whose declared length
/// stays under the cap parse back to the same token, checksum and payload —
/// with any continuation of the stream behind them — consuming exactly the
/// frame's bytes.  If the frame was sealed with the checksum of its own token
/// and payload, the parsed fields pass checksum validation too.
pub proof fn lemma_frame_round_trip(f: Frame, rest: Seq<u8>)
    requires
        16 + f.payload@.len() < MAX_FDB_FRAME_LENGTH,
        f.checksum is Some,
    ensures
        ({
            let wire = spec_frame_wire(f);
            let s = wire + rest;
            &&& wire.len() == 28 + f.payload@.len()
            &&& frame_declared_len(s) == 16 + f.payload@.len()
            &&& frame_ok(s)
            &&& frame_error(s) is None
            &&& !frame_need_more(s)
            &&& frame_used(s) == wire.len()
            &&& frame_checksum_field(s) == f.checksum->0
            &&& frame_token0(s) == f.token.uid[0]
            &&& frame_token1(s) == f.token.uid[1]
            &&& frame_payload(s) == f.payload@
            &&& s.skip(frame_used(s)) == rest
            &&& (f.checksum->0 == spec_frame_checksum(f.token.uid[0], f.token.uid[1], f.payload@)
                ==> frame_checksum_field(s) == spec_frame_checksum(
                frame_token0(s),
                frame_token1(s),
                frame_payload(s),
            ))
        }),
{
    lemma_auto_spec_u32_to_from_le_bytes();
    lemma_auto_spec_u64_to_from_le_bytes();
    let wire = spec_frame_wire(f);
    let s = wire + rest;
    let len32: u32 = (16 + f.payload@.len()) as u32;
    assert(s.subrange(0, 4) =~= spec_u32_to_le_bytes(len32));
    assert(s.subrange(4, 12) =~= spec_u64_to_le_bytes(f.checksum->0));
    assert(s.subrange(12, 20) =~= spec_u64_to_le_bytes(f.token.uid[0]));
    assert(s.subrange(20, 28) =~= spec_u64_to_le_bytes(f.token.uid[1]));
    assert(frame_payload(s) =~= f.payload@);
    assert(s.skip(frame_used(s)) =~= rest);
}

/// Round trip for the handshake: the wire bytes of any well-formed connect
/// packet parse back to the same fields, with any continuation of the stream
/// behind them, consuming exactly the packet's 44 bytes.
pub proof fn lemma_handshake_round_trip(p: ConnectPacket, rest: Seq<u8>)
    requires
        spec_connect_packet_wf(p),
    ensures
        ({
            let wire = spec_connect_packet_wire(p);
            let s = wire + rest;
            &&& wire.len() == 44
            &&& hs_declared_len(s) == 40
            &&& hs_ok(s)
            &&& hs_error(s) is None
            &&& !hs_need_more(s)
            &&& hs_used(s) == 44
            &&& hs_version_flags(s) == p.version_flags
            &&& hs_version(s) == p.version
            &&& hs_port(s) == p.canonical_remote_port
            &&& hs_connection_id(s) == p.connection_id
            &&& hs_ip4(s) == p.canonical_remote_ip4
            &&& hs_flags16(s) == (match p.connect_packet_flags {
                ConnectPacketFlags::IPV4 => 0u16,
                ConnectPacketFlags::IPV6 => 1u16,
            })
            &&& hs_ip6(s) == p.canonical_remote_ip6@
            &&& hs_trailing(s) == 0
            &&& s.skip(44) == rest
        }),
{
    lemma_auto_spec_u16_to_from_le_bytes();
    lemma_auto_spec_u32_to_from_le_bytes();
    lemma_auto_spec_u64_to_from_le_bytes();
    let wire = spec_connect_packet_wire(p);
    let s = wire + rest;
    let flags16: u16 = match p.connect_packet_flags {
        ConnectPacketFlags::IPV4 => 0u16,
        ConnectPacketFlags::IPV6 => 1u16,
    };
    assert(s.subrange(0, 4) =~= spec_u32_to_le_bytes(40));
    assert(s.subrange(4, 12) =~= spec_u64_to_le_bytes(spec_version_word(p)));
    assert(s.subrange(12, 14) =~= spec_u16_to_le_bytes(p.canonical_remote_port));
    assert(s.subrange(14, 22) =~= spec_u64_to_le_bytes(p.connection_id));
    assert(s.subrange(22, 26) =~= spec_u32_to_le_bytes(p.canonical_remote_ip4));
    assert(s.subrange(26, 28) =~= spec_u16_to_le_bytes(flags16));
    assert(s.subrange(28, 44) =~= p.canonical_remote_ip6@);
    let vf = p.version_flags as u64;
    let ver = p.version;
    let word = spec_version_word(p);
    assert((vf << 60) | ver == vf * 0x1000_0000_0000_0000 + ver) by (bit_vector)
        requires
            vf <= 15,
            ver < 0x1000_0000_0000_0000,
    ;
    vstd::arithmetic::div_mod::lemma_fundamental_div_mod_converse(
        word as int,
        0x1000_0000_0000_0000,
        vf as int,
        ver as int,
    );
    assert(s.skip(44) =~= rest);
}

/// Oversize rejection for frames: as soon as the header is buffered, a
/// declared length at or above the cap is a fatal error, never a request for
/// more bytes and never an accepted frame.
pub proof fn lemma_oversize_frame_rejected(s: Seq<u8>)
    requires
        s.len() >= 28,
        frame_declared_len(s) >= MAX_FDB_FRAME_LENGTH,
    ensures
        frame_error(s) == Some(CodecError::FrameTooLong),
        !frame_need_more(s),
        !frame_ok(s),
{
}

/// Oversize rejection for the handshake: as soon as the length field and the
/// version word are buffered, a declared length at or above the cap is a
/// fatal error, never a request for more bytes and never an accepted packet.
pub proof fn lemma_oversize_handshake_rejected(s: Seq<u8>)
    requires
        s.len() >= 12,
        hs_declared_len(s) >= MAX_FDB_FRAME_LENGTH,
    ensures
        hs_error(s) == Some(CodecError::FrameTooLong),
        !hs_need_more(s),
        !hs_ok(s),
{
}

/// Partial-buffer stability: while any strict prefix of a well-formed
/// handshake-then-frame stream is buffered, the decoder reports neither an
/// item nor an error — the handshake is accepted internally once its 44 bytes
/// are in — and the complete stream yields exactly the frame.
pub proof fn lemma_partial_stream_is_silent(p: ConnectPacket, f: Frame, k: int)
    requires
        spec_connect_packet_wf(p),
        16 + f.payload@.len() < MAX_FDB_FRAME_LENGTH,
        f.checksum is Some,
        0 <= k <= 44 + spec_frame_wire(f).len(),
    ensures
        ({
            let w1 = spec_connect_packet_wire(p);
            let w2 = spec_frame_wire(f);
            let pre = (w1 + w2).take(k);
            if k < 44 {
                hs_need_more(pre) && hs_error(pre) is None
            } else {
                &&& hs_ok(pre)
                &&& hs_error(pre) is None
                &&& hs_used(pre) == 44
                &&& (k < 44 + w2.len() ==> frame_need_more(pre.skip(44)) && frame_error(
                    pre.skip(44),
                ) is None)
                &&& (k == 44 + w2.len() ==> frame_ok(pre.skip(44)) && frame_token0(pre.skip(44))
                    == f.token.uid[0] && frame_token1(pre.skip(44)) == f.token.uid[1]
                    && frame_checksum_field(pre.skip(44)) == f.checksum->0 && frame_payload(
                    pre.skip(44),
                ) == f.payload@)
            }
        }),
{
    lemma_auto_spec_u16_to_from_le_bytes();
    lemma_auto_spec_u32_to_from_le_bytes();
    lemma_auto_spec_u64_to_from_le_bytes();
    lemma_handshake_round_trip(p, Seq::<u8>::empty());
    lemma_frame_round_trip(f, Seq::<u8>::empty());
    let w1 = spec_connect_packet_wire(p);
    let w2 = spec_frame_wire(f);
    assert(w1 + Seq::<u8>::empty() =~= w1);
    assert(w2 + Seq::<u8>::empty() =~= w2);
    let pre = (w1 + w2).take(k);
    assert(pre.len() == k);
    if k < 12 {
        assert(hs_need_more(pre));
    } else if k < 44 {
        assert(pre.subrange(0, 4) =~= spec_u32_to_le_bytes(40));
        assert(hs_declared_len(pre) == 40);
        assert(hs_need_more(pre));
        assert(hs_error(pre) is None);
    } else {
        let rem = w2.take(k - 44);
        assert(pre =~= w1 + rem);
        lemma_handshake_round_trip(p, rem);
        assert(pre.skip(44) == rem);
        if k - 44 < 28 {
            assert(frame_need_more(rem));
            assert(frame_error(rem) is None);
        } else {
            let len32: u32 = (16 + f.payload@.len()) as u32;
            assert(rem.subrange(0, 4) =~= spec_u32_to_le_bytes(len32));
            assert(frame_declared_len(rem) == len32);
            assert(frame_error(rem) is None);
            if k < 44 + w2.len() {
                assert(rem.len() == k - 44 < 12 + len32);
                assert(frame_need_more(rem));
            } else {
                assert(rem =~= w2);
            }
        }
    }
}

} // verus!

