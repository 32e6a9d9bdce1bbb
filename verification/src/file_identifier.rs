//! Schema tags: the 32-bit wire value near the start of every payload that
//! identifies the message's schema before full decoding.  The low 24 bits
//! hold the numeric schema id; the two high nibbles describe how the value is
//! wrapped — the lower nibble the inner wrapper, the upper nibble the outer
//! wrapper.

use vstd::prelude::*;

verus! {

/// How a value is wrapped on the wire: present unconditionally, possibly
/// structurally absent, or a tagged union of an error and a value.
#[derive(Clone, Copy, PartialEq, Eq, Structural, Debug)]
pub enum WrapperKind {
    Plain,
    Optional,
    ErrorOr,
}

/// A parsed schema tag: numeric id, wrapper composition (the inner wrapper is
/// applied to the raw value first, the outer wrapper to the result), and an
/// optional diagnostic name.
#[derive(Clone, Copy, PartialEq, Eq, Debug)]
pub struct ParsedFileIdentifier {
    pub file_identifier: u32,
    pub inner_wrapper: WrapperKind,
    pub outer_wrapper: WrapperKind,
    pub file_identifier_name: Option<&'static str>,
}

/// The wrapper kind a wire nibble encodes, if it is in the vocabulary.
pub open spec fn spec_wrapper_from_nibble(n: u32) -> Option<WrapperKind> {
    if n == 0 {
        Some(WrapperKind::Plain)
    } else if n == 1 {
        Some(WrapperKind::Optional)
    } else if n == 2 {
        Some(WrapperKind::ErrorOr)
    } else {
        None
    }
}

/// The nibble that encodes a wrapper kind on the wire.
pub open spec fn spec_wrapper_nibble(w: WrapperKind) -> u32 {
    match w {
        WrapperKind::Plain => 0,
        WrapperKind::Optional => 1,
        WrapperKind::ErrorOr => 2,
    }
}

/// What parsing a 32-bit wire tag yields: the low 24 bits as the id, bits
/// 24..28 as the inner wrapper, bits 28..32 as the outer wrapper; no name.
pub open spec fn spec_parse_file_identifier(wire: u32) -> Option<ParsedFileIdentifier> {
    let inner = spec_wrapper_from_nibble((wire >> 24) & 0xf);
    let outer = spec_wrapper_from_nibble(wire >> 28);
    if inner is Some && outer is Some {
        Some(
            ParsedFileIdentifier {
                file_identifier: wire & 0xff_ffff,
                inner_wrapper: inner->0,
                outer_wrapper: outer->0,
                file_identifier_name: None,
            },
        )
    } else {
        None
    }
}

/// The wire value of a tag: id in the low 24 bits, the wrapper nibbles above.
pub open spec fn spec_file_identifier_wire(id: ParsedFileIdentifier) -> u32 {
    (id.file_identifier & 0xff_ffff) | (spec_wrapper_nibble(id.inner_wrapper) << 24) | (
    spec_wrapper_nibble(id.outer_wrapper) << 28)
}

fn wrapper_from_nibble(n: u32) -> (r: Option<WrapperKind>)
    ensures
        r == spec_wrapper_from_nibble(n),
{
    if n == 0 {
        Some(WrapperKind::Plain)
    } else if n == 1 {
        Some(WrapperKind::Optional)
    } else if n == 2 {
        Some(WrapperKind::ErrorOr)
    } else {
        None
    }
}

impl ParsedFileIdentifier {
    /// Parses a 32-bit wire tag; rejects a wrapper nibble outside the
    /// vocabulary.
    pub fn new_from_wire(wire: u32) -> (r: Result<ParsedFileIdentifier, crate::CodecError>)
        ensures
            match r {
                Ok(id) => spec_parse_file_identifier(wire) == Some(id),
                Err(e) => spec_parse_file_identifier(wire) is None && e
                    == crate::CodecError::UnknownWrapper,
            },
    {
        let inner = wrapper_from_nibble((wire >> 24) & 0xf);
        let outer = wrapper_from_nibble(wire >> 28);
        match (inner, outer) {
            (Some(i), Some(o)) => Ok(
                ParsedFileIdentifier {
                    file_identifier: wire & 0xff_ffff,
                    inner_wrapper: i,
                    outer_wrapper: o,
                    file_identifier_name: None,
                },
            ),
            _ => Err(crate::CodecError::UnknownWrapper),
        }
    }

    /// The wire value this tag serializes to.
    pub fn to_wire(&self) -> (r: u32)
        ensures
            r == spec_file_identifier_wire(*self),
    {
        let inner = match self.inner_wrapper {
            WrapperKind::Plain => 0u32,
            WrapperKind::Optional => 1u32,
            WrapperKind::ErrorOr => 2u32,
        };
        let outer = match self.outer_wrapper {
            WrapperKind::Plain => 0u32,
            WrapperKind::Optional => 1u32,
            WrapperKind::ErrorOr => 2u32,
        };
        (self.file_identifier & 0xff_ffff) | (inner << 24) | (outer << 28)
    }

    /// Equal id and wrapper composition; the diagnostic name is not part of
    /// the wire format.
    pub open spec fn same_tag(self, other: ParsedFileIdentifier) -> bool {
        &&& self.file_identifier == other.file_identifier
        &&& self.inner_wrapper == other.inner_wrapper
        &&& self.outer_wrapper == other.outer_wrapper
    }
}

/// The leader-discovery request tag, as a specification value.  The
/// diagnostic name plays no part in the wire format.
pub open spec fn spec_get_leader_request_tag() -> ParsedFileIdentifier {
    ParsedFileIdentifier {
        file_identifier: 214727,
        inner_wrapper: WrapperKind::Plain,
        outer_wrapper: WrapperKind::Plain,
        file_identifier_name: None,
    }
}

/// The leader-discovery reply tag, as a specification value.
pub open spec fn spec_get_leader_reply_tag() -> ParsedFileIdentifier {
    ParsedFileIdentifier {
        file_identifier: 8338794,
        inner_wrapper: WrapperKind::ErrorOr,
        outer_wrapper: WrapperKind::Optional,
        file_identifier_name: None,
    }
}

/// The schema tag of the leader-discovery request.
pub fn get_leader_request_tag() -> (r: ParsedFileIdentifier)
    ensures
        r.file_identifier == 214727,
        r.inner_wrapper == WrapperKind::Plain,
        r.outer_wrapper == WrapperKind::Plain,
{
    ParsedFileIdentifier {
        file_identifier: 214727,
        inner_wrapper: WrapperKind::Plain,
        outer_wrapper: WrapperKind::Plain,
        file_identifier_name: Some("GetLeaderRequest"),
    }
}

/// The schema tag of the leader-discovery reply: an error-capable value that
/// may itself be structurally absent.
pub fn get_leader_reply_tag() -> (r: ParsedFileIdentifier)
    ensures
        r.file_identifier == 8338794,
        r.inner_wrapper == WrapperKind::ErrorOr,
        r.outer_wrapper == WrapperKind::Optional,
{
    ParsedFileIdentifier {
        file_identifier: 8338794,
        inner_wrapper: WrapperKind::ErrorOr,
        outer_wrapper: WrapperKind::Optional,
        file_identifier_name: Some("LeaderInfo"),
    }
}

/// Parsing the wire value of a tag with a 24-bit id recovers the tag's id and
/// wrapper composition.
pub proof fn lemma_file_identifier_round_trip(id: ParsedFileIdentifier)
    requires
        id.file_identifier < 0x100_0000,
    ensures
        ({
            let parsed = spec_parse_file_identifier(spec_file_identifier_wire(id));
            parsed is Some && parsed->0.same_tag(id)
        }),
{
    let f = id.file_identifier;
    let i = spec_wrapper_nibble(id.inner_wrapper);
    let o = spec_wrapper_nibble(id.outer_wrapper);
    let wire = spec_file_identifier_wire(id);
    assert((((f & 0xff_ffff) | (i << 24) | (o << 28)) >> 24) & 0xf == i && (((f & 0xff_ffff) | (i
        << 24) | (o << 28)) >> 28) == o && (((f & 0xff_ffff) | (i << 24) | (o << 28)) & 0xff_ffff)
        == f) by (bit_vector)
        requires
            f < 0x100_0000,
            i <= 2,
            o <= 2,
    ;
}

} // verus!
