//! Client-side codec for a "Flow"-style binary RPC transport: a length-prefixed,
//! checksummed frame format preceded by a one-time connection handshake, a
//! 128-bit endpoint-addressing scheme with reserved well-known addresses, and a
//! self-describing message envelope that identifies a payload's schema before it
//! is fully decoded.

use vstd::prelude::*;

pub mod buf;
pub mod file_identifier;
pub mod frame;
pub mod get_leader;
pub mod uid;

verus! {

/// Every failure the codec reports.  Malformed-stream errors
/// (`FrameTooLong`, `HandshakeTooShort`, `BadAddressFlags`) are fatal to the
/// connection; the others are per-message.
#[derive(Clone, Copy, PartialEq, Eq, Structural, Debug)]
pub enum CodecError {
    /// A declared frame or handshake length at or above the cap.
    FrameTooLong,
    /// A declared frame length too short to hold the 16 token bytes.
    FrameTooShort,
    /// A declared handshake length too short to hold the fixed fields.
    HandshakeTooShort,
    /// An address-flags word that selects neither IPv4 nor IPv6.
    BadAddressFlags,
    /// A stored frame checksum that does not match the recomputed one.
    ChecksumMismatch,
    /// A frame payload too short to hold the schema tag.
    PayloadTooShort,
    /// A schema-tag wrapper nibble outside the known vocabulary.
    UnknownWrapper,
    /// A payload structurally inconsistent with the declared schema.
    SchemaDecode,
}

} // verus!
