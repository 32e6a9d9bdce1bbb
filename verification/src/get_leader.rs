//! The leader-discovery RPC binding: the one worked example of the envelope
//! convention.  Request and reply bodies travel as schema-codec tables (a
//! flatbuffer-style layout: a root offset, vtables, and forward offsets to
//! vectors and sub-tables); the decoders here walk exactly the fields the
//! two message shapes declare, with every offset bounds-checked, and the
//! builders emit the same layout, proved to parse back to what they were
//! given.
//!
//! A reply is wrapped twice: an error-capable union inside an absence-capable
//! outer layer.  Decoding therefore surfaces three outcomes: structurally
//! absent, a carried error, or a present typed value.

use vstd::bytes::*;
use vstd::prelude::*;

use crate::file_identifier::{
    get_leader_reply_tag, get_leader_request_tag, spec_file_identifier_wire,
    spec_get_leader_reply_tag, spec_get_leader_request_tag,
};
use crate::frame::{
    append_slice, spec_frame_checksum, spec_le16, spec_le32, spec_le64, Frame,
    MAX_FDB_FRAME_LENGTH,
};
use crate::uid::{spec_wltoken_code, UID, WLTOKEN};
use crate::CodecError;

verus! {

/// The decoded leader-discovery request: the cluster key, the caller's
/// previously-known leader (all-zero when absent), and the freshly generated
/// reply address (all-zero when absent).
#[derive(Clone, PartialEq, Eq, Debug)]
pub struct GetLeaderRequest {
    pub key: Vec<u8>,
    pub known_leader: UID,
    pub reply_promise: UID,
}

/// The decoded leader-discovery reply value: the leadership epoch, whether
/// the peer is redirecting the caller, and the opaque serialized leader info.
#[derive(Clone, PartialEq, Eq, Debug)]
pub struct LeaderInfo {
    pub change_id: UID,
    pub forward: bool,
    pub serialized_info: Vec<u8>,
}

/// A carried application error: the peer answered the RPC through the
/// error arm of its wrapper rather than with a value.  Not a protocol
/// failure — a normal, negative outcome.  The raw reply bytes are kept so the
/// error stays diagnosable; their inner schema belongs to the peer.
#[derive(Clone, PartialEq, Eq, Debug)]
pub struct CarriedError {
    pub error_bytes: Vec<u8>,
}

// ---------------------------------------------------------------------------
// The table model: how a schema-codec buffer is navigated, over `Seq<u8>`.
// ---------------------------------------------------------------------------
/// The signed 32-bit value at offset `i`, as an integer.
pub open spec fn fb_i32_at(s: Seq<u8>, i: int) -> int {
    let v = spec_le32(s, i) as int;
    if v >= 0x8000_0000 {
        v - 0x1_0000_0000
    } else {
        v
    }
}

/// Where a field's data lives in a table, if anywhere.
pub enum FieldLookup {
    /// The buffer is structurally inconsistent.
    Bad,
    /// The table does not carry the field.
    Absent,
    /// The field's data starts at this buffer position.
    At(int),
}

/// Resolves field slot `k` of the table at position `t`: the table's first
/// word points back at its vtable, whose entries are offsets of the fields
/// within the table; a slot beyond the vtable or a zero offset means the
/// field is absent.
pub open spec fn fb_field(s: Seq<u8>, t: int, k: int) -> FieldLookup {
    if !(0 <= t && t + 4 <= s.len()) {
        FieldLookup::Bad
    } else {
        let vt = t - fb_i32_at(s, t);
        if !(0 <= vt && vt + 4 <= s.len()) {
            FieldLookup::Bad
        } else {
            let vsize = spec_le16(s, vt) as int;
            if 4 + 2 * k + 2 > vsize {
                FieldLookup::Absent
            } else if !(vt + 4 + 2 * k + 2 <= s.len()) {
                FieldLookup::Bad
            } else {
                let off = spec_le16(s, vt + 4 + 2 * k) as int;
                if off == 0 {
                    FieldLookup::Absent
                } else {
                    FieldLookup::At(t + off)
                }
            }
        }
    }
}

/// Follows the forward offset at `pos` to a table position; the target must
/// leave room for the table's vtable word.
pub open spec fn fb_table_at(s: Seq<u8>, pos: int) -> Option<int> {
    if !(0 <= pos && pos + 4 <= s.len()) {
        None
    } else {
        let t = pos + spec_le32(s, pos);
        if t + 4 <= s.len() {
            Some(t)
        } else {
            None
        }
    }
}

/// A byte-vector field: a forward offset to a length-prefixed run of bytes.
/// Outer `None` means the buffer is malformed.
pub open spec fn fb_bytes_at(s: Seq<u8>, pos: int) -> Option<Seq<u8>> {
    if !(0 <= pos && pos + 4 <= s.len()) {
        None
    } else {
        let tgt = pos + spec_le32(s, pos);
        if !(tgt + 4 <= s.len()) {
            None
        } else {
            let n = spec_le32(s, tgt) as int;
            if tgt + 4 + n <= s.len() {
                Some(s.subrange(tgt + 4, tgt + 4 + n))
            } else {
                None
            }
        }
    }
}

/// Field slot `k` of table `t` read as a byte vector.  Outer `None`:
/// malformed; inner `None`: absent.
pub open spec fn fb_opt_bytes(s: Seq<u8>, t: int, k: int) -> Option<Option<Seq<u8>>> {
    match fb_field(s, t, k) {
        FieldLookup::Bad => None,
        FieldLookup::Absent => Some(None),
        FieldLookup::At(p) => match fb_bytes_at(s, p) {
            None => None,
            Some(b) => Some(Some(b)),
        },
    }
}

/// Field slot `k` of table `t` read as a 16-byte inline token struct: two
/// little-endian 64-bit words.
pub open spec fn fb_opt_uid(s: Seq<u8>, t: int, k: int) -> Option<Option<(u64, u64)>> {
    match fb_field(s, t, k) {
        FieldLookup::Bad => None,
        FieldLookup::Absent => Some(None),
        FieldLookup::At(p) => if p + 16 <= s.len() {
            Some(Some((spec_le64(s, p), spec_le64(s, p + 8))))
        } else {
            None
        },
    }
}

/// Field slot `k` of table `t` read as an inline byte scalar.
pub open spec fn fb_opt_u8(s: Seq<u8>, t: int, k: int) -> Option<Option<u8>> {
    match fb_field(s, t, k) {
        FieldLookup::Bad => None,
        FieldLookup::Absent => Some(None),
        FieldLookup::At(p) => if 0 <= p && p + 1 <= s.len() {
            Some(Some(s[p]))
        } else {
            None
        },
    }
}

/// Field slot `k` of table `t` read as a sub-table position.
pub open spec fn fb_opt_table(s: Seq<u8>, t: int, k: int) -> Option<Option<int>> {
    match fb_field(s, t, k) {
        FieldLookup::Bad => None,
        FieldLookup::Absent => Some(None),
        FieldLookup::At(p) => match fb_table_at(s, p) {
            None => None,
            Some(tt) => Some(Some(tt)),
        },
    }
}

// ---------------------------------------------------------------------------
// The verified reader
// ---------------------------------------------------------------------------
fn read_u16_at(v: &Vec<u8>, i: usize) -> (r: u16)
    requires
        v@.len() < 0x4000_0000,
        i + 2 <= v@.len(),
    ensures
        r == spec_le16(v@, i as int),
{
    u16_from_le_bytes(vstd::slice::slice_subrange(v.as_slice(), i, i + 2))
}

fn read_u32_at(v: &Vec<u8>, i: usize) -> (r: u32)
    requires
        v@.len() < 0x4000_0000,
        i + 4 <= v@.len(),
    ensures
        r == spec_le32(v@, i as int),
{
    u32_from_le_bytes(vstd::slice::slice_subrange(v.as_slice(), i, i + 4))
}

fn read_u64_at(v: &Vec<u8>, i: usize) -> (r: u64)
    requires
        v@.len() < 0x4000_0000,
        i + 8 <= v@.len(),
    ensures
        r == spec_le64(v@, i as int),
{
    u64_from_le_bytes(vstd::slice::slice_subrange(v.as_slice(), i, i + 8))
}

/// Resolves a field slot, mirroring `fb_field`.
fn table_field(v: &Vec<u8>, t: usize, k: usize) -> (r: Result<Option<usize>, CodecError>)
    requires
        v@.len() < 0x4000_0000,
        t + 4 <= v@.len(),
        k <= 4,
    ensures
        match r {
            Err(e) => fb_field(v@, t as int, k as int) is Bad && e == CodecError::SchemaDecode,
            Ok(None) => fb_field(v@, t as int, k as int) is Absent,
            Ok(Some(p)) => fb_field(v@, t as int, k as int) == FieldLookup::At(p as int),
        },
{
    let soff = read_u32_at(v, t);
    let soff_i: i64 = if soff >= 0x8000_0000 {
        (soff as i64) - 0x1_0000_0000
    } else {
        soff as i64
    };
    let vt_i: i64 = (t as i64) - soff_i;
    if vt_i < 0 || vt_i + 4 > (v.len() as i64) {
        return Err(CodecError::SchemaDecode);
    }
    let vt = vt_i as usize;
    let vsize = read_u16_at(v, vt);
    let slot: usize = 4 + 2 * k;
    if slot + 2 > (vsize as usize) {
        return Ok(None);
    }
    if vt + slot + 2 > v.len() {
        return Err(CodecError::SchemaDecode);
    }
    let off = read_u16_at(v, vt + slot);
    if off == 0 {
        return Ok(None);
    }
    Ok(Some(t + (off as usize)))
}

/// Follows a forward table offset, mirroring `fb_table_at`.
fn follow_offset(v: &Vec<u8>, pos: usize) -> (r: Result<usize, CodecError>)
    requires
        v@.len() < 0x4000_0000,
        pos + 4 <= v@.len(),
    ensures
        match r {
            Err(e) => fb_table_at(v@, pos as int) is None && e == CodecError::SchemaDecode,
            Ok(t) => fb_table_at(v@, pos as int) == Some(t as int) && t + 4 <= v@.len(),
        },
{
    let off = read_u32_at(v, pos);
    let tgt64: u64 = (pos as u64) + (off as u64);
    if tgt64 + 4 > (v.len() as u64) {
        return Err(CodecError::SchemaDecode);
    }
    Ok(tgt64 as usize)
}

/// Reads a byte-vector field, mirroring `fb_opt_bytes`.
fn get_bytes_field(v: &Vec<u8>, t: usize, k: usize) -> (r: Result<Option<Vec<u8>>, CodecError>)
    requires
        v@.len() < 0x4000_0000,
        t + 4 <= v@.len(),
        k <= 4,
    ensures
        match r {
            Err(e) => fb_opt_bytes(v@, t as int, k as int) is None && e == CodecError::SchemaDecode,
            Ok(None) => fb_opt_bytes(v@, t as int, k as int) == Some(Option::<Seq<u8>>::None),
            Ok(Some(b)) => fb_opt_bytes(v@, t as int, k as int) == Some(Some(b@)),
        },
{
    let p = match table_field(v, t, k) {
        Err(e) => {
            return Err(e);
        },
        Ok(None) => {
            return Ok(None);
        },
        Ok(Some(p)) => p,
    };
    if p + 4 > v.len() {
        return Err(CodecError::SchemaDecode);
    }
    let off = read_u32_at(v, p);
    let tgt64: u64 = (p as u64) + (off as u64);
    if tgt64 + 4 > (v.len() as u64) {
        return Err(CodecError::SchemaDecode);
    }
    let tgt = tgt64 as usize;
    let n = read_u32_at(v, tgt);
    if tgt64 + 4 + (n as u64) > (v.len() as u64) {
        return Err(CodecError::SchemaDecode);
    }
    let b = vstd::slice::slice_to_vec(
        vstd::slice::slice_subrange(v.as_slice(), tgt + 4, tgt + 4 + (n as usize)),
    );
    Ok(Some(b))
}

/// Reads an inline 16-byte token field, mirroring `fb_opt_uid`.
fn get_uid_field(v: &Vec<u8>, t: usize, k: usize) -> (r: Result<Option<UID>, CodecError>)
    requires
        v@.len() < 0x4000_0000,
        t + 4 <= v@.len(),
        k <= 4,
    ensures
        match r {
            Err(e) => fb_opt_uid(v@, t as int, k as int) is None && e == CodecError::SchemaDecode,
            Ok(None) => fb_opt_uid(v@, t as int, k as int) == Some(Option::<(u64, u64)>::None),
            Ok(Some(u)) => fb_opt_uid(v@, t as int, k as int) == Some(
                Some((u.uid[0], u.uid[1])),
            ),
        },
{
    let p = match table_field(v, t, k) {
        Err(e) => {
            return Err(e);
        },
        Ok(None) => {
            return Ok(None);
        },
        Ok(Some(p)) => p,
    };
    if p + 16 > v.len() {
        return Err(CodecError::SchemaDecode);
    }
    let w0 = read_u64_at(v, p);
    let w1 = read_u64_at(v, p + 8);
    Ok(Some(UID { uid: [w0, w1] }))
}

/// Reads an inline byte scalar field, mirroring `fb_opt_u8`.
fn get_u8_field(v: &Vec<u8>, t: usize, k: usize) -> (r: Result<Option<u8>, CodecError>)
    requires
        v@.len() < 0x4000_0000,
        t + 4 <= v@.len(),
        k <= 4,
    ensures
        match r {
            Err(e) => fb_opt_u8(v@, t as int, k as int) is None && e == CodecError::SchemaDecode,
            Ok(None) => fb_opt_u8(v@, t as int, k as int) == Some(Option::<u8>::None),
            Ok(Some(b)) => fb_opt_u8(v@, t as int, k as int) == Some(Some(b)),
        },
{
    let p = match table_field(v, t, k) {
        Err(e) => {
            return Err(e);
        },
        Ok(None) => {
            return Ok(None);
        },
        Ok(Some(p)) => p,
    };
    if p + 1 > v.len() {
        return Err(CodecError::SchemaDecode);
    }
    Ok(Some(*vstd::slice::slice_index_get(v.as_slice(), p)))
}

/// Reads a sub-table field, mirroring `fb_opt_table`.
fn get_table_field(v: &Vec<u8>, t: usize, k: usize) -> (r: Result<Option<usize>, CodecError>)
    requires
        v@.len() < 0x4000_0000,
        t + 4 <= v@.len(),
        k <= 4,
    ensures
        match r {
            Err(e) => fb_opt_table(v@, t as int, k as int) is None && e == CodecError::SchemaDecode,
            Ok(None) => fb_opt_table(v@, t as int, k as int) == Some(Option::<int>::None),
            Ok(Some(tt)) => fb_opt_table(v@, t as int, k as int) == Some(Some(tt as int)) && tt + 4
                <= v@.len(),
        },
{
    let p = match table_field(v, t, k) {
        Err(e) => {
            return Err(e);
        },
        Ok(None) => {
            return Ok(None);
        },
        Ok(Some(p)) => p,
    };
    if p + 4 > v.len() {
        return Err(CodecError::SchemaDecode);
    }
    match follow_offset(v, p) {
        Err(e) => Err(e),
        Ok(tt) => Ok(Some(tt)),
    }
}

// ---------------------------------------------------------------------------
// The two message shapes
// ---------------------------------------------------------------------------
/// What decoding a request buffer yields.  The root table holds the request
/// sub-table; its fields are the cluster key (slot 0, byte vector, empty when
/// absent), the known leader (slot 1, inline token, zero when absent) and the
/// reply promise (slot 2, a sub-table holding one inline token, zero when
/// absent).  Anything structurally inconsistent is a schema-decode error.
pub open spec fn spec_request_outcome(
    s: Seq<u8>,
    r: Result<GetLeaderRequest, CodecError>,
) -> bool {
    if s.len() < 4 || s.len() >= 0x4000_0000 {
        r == Err::<GetLeaderRequest, CodecError>(CodecError::SchemaDecode)
    } else {
        match fb_table_at(s, 0) {
            None => r == Err::<GetLeaderRequest, CodecError>(CodecError::SchemaDecode),
            Some(root) => match fb_opt_table(s, root, 0) {
                None => r == Err::<GetLeaderRequest, CodecError>(CodecError::SchemaDecode),
                Some(None) => r == Err::<GetLeaderRequest, CodecError>(CodecError::SchemaDecode),
                Some(Some(t)) => match (
                    fb_opt_bytes(s, t, 0),
                    fb_opt_uid(s, t, 1),
                    fb_opt_table(s, t, 2),
                ) {
                    (Some(key_o), Some(kl_o), Some(rp_o)) => {
                        let rp_inner = match rp_o {
                            None => Some(Option::<(u64, u64)>::None),
                            Some(rpt) => fb_opt_uid(s, rpt, 0),
                        };
                        match rp_inner {
                            None => r == Err::<GetLeaderRequest, CodecError>(
                                CodecError::SchemaDecode,
                            ),
                            Some(rp) => {
                                &&& r is Ok
                                &&& r->Ok_0.key@ == (match key_o {
                                    Some(b) => b,
                                    None => Seq::<u8>::empty(),
                                })
                                &&& (r->Ok_0.known_leader.uid[0], r->Ok_0.known_leader.uid[1])
                                    == (match kl_o {
                                    Some(u) => u,
                                    None => (0u64, 0u64),
                                })
                                &&& (r->Ok_0.reply_promise.uid[0], r->Ok_0.reply_promise.uid[1])
                                    == (match rp {
                                    Some(u) => u,
                                    None => (0u64, 0u64),
                                })
                            },
                        }
                    },
                    _ => r == Err::<GetLeaderRequest, CodecError>(CodecError::SchemaDecode),
                },
            },
        }
    }
}

/// Decodes a leader-discovery request body.
pub fn deserialize_request(buf: &[u8]) -> (r: Result<GetLeaderRequest, CodecError>)
    ensures
        spec_request_outcome(buf@, r),
{
    let v = vstd::slice::slice_to_vec(buf);
    if v.len() < 4 || v.len() >= 0x4000_0000 {
        return Err(CodecError::SchemaDecode);
    }
    let root = match follow_offset(&v, 0) {
        Err(e) => {
            return Err(e);
        },
        Ok(t) => t,
    };
    let t = match get_table_field(&v, root, 0) {
        Err(e) => {
            return Err(e);
        },
        Ok(None) => {
            return Err(CodecError::SchemaDecode);
        },
        Ok(Some(t)) => t,
    };
    let key = match get_bytes_field(&v, t, 0) {
        Err(e) => {
            return Err(e);
        },
        Ok(None) => Vec::new(),
        Ok(Some(b)) => b,
    };
    let known_leader = match get_uid_field(&v, t, 1) {
        Err(e) => {
            return Err(e);
        },
        Ok(None) => UID { uid: [0, 0] },
        Ok(Some(u)) => u,
    };
    let reply_promise = match get_table_field(&v, t, 2) {
        Err(e) => {
            return Err(e);
        },
        Ok(None) => UID { uid: [0, 0] },
        Ok(Some(rpt)) => match get_uid_field(&v, rpt, 0) {
            Err(e) => {
                return Err(e);
            },
            Ok(None) => UID { uid: [0, 0] },
            Ok(Some(u)) => u,
        },
    };
    Ok(GetLeaderRequest { key, known_leader, reply_promise })
}

/// What decoding a reply buffer yields.  The root table carries the wrapper
/// composition as a union: slot 0 is the union's type byte (0 when absent),
/// slot 1 the union's value.  Type 1 carries an error; type 2 carries a
/// leader-info table (slot 0 the change id, slot 1 the serialized info, slot
/// 2 the forwarding flag); 0 and every unrecognized type mean the value is
/// structurally absent.
pub open spec fn spec_reply_outcome(
    s: Seq<u8>,
    r: Result<Option<Result<LeaderInfo, CarriedError>>, CodecError>,
) -> bool {
    if s.len() < 4 || s.len() >= 0x4000_0000 {
        r == Err::<Option<Result<LeaderInfo, CarriedError>>, CodecError>(CodecError::SchemaDecode)
    } else {
        match fb_table_at(s, 0) {
            None => r == Err::<Option<Result<LeaderInfo, CarriedError>>, CodecError>(
                CodecError::SchemaDecode,
            ),
            Some(root) => match fb_opt_u8(s, root, 0) {
                None => r == Err::<Option<Result<LeaderInfo, CarriedError>>, CodecError>(
                    CodecError::SchemaDecode,
                ),
                Some(ty_o) => {
                    let ty = match ty_o {
                        Some(b) => b,
                        None => 0u8,
                    };
                    if ty == 1 {
                        &&& r is Ok
                        &&& r->Ok_0 is Some
                        &&& r->Ok_0->0 is Err
                        &&& r->Ok_0->0->Err_0.error_bytes@ == s
                    } else if ty == 2 {
                        spec_leader_info_outcome(s, root, r)
                    } else {
                        r == Ok::<Option<Result<LeaderInfo, CarriedError>>, CodecError>(None)
                    }
                },
            },
        }
    }
}

/// The present-value arm of `spec_reply_outcome`: the union value must be a
/// well-formed leader-info table.
pub open spec fn spec_leader_info_outcome(
    s: Seq<u8>,
    root: int,
    r: Result<Option<Result<LeaderInfo, CarriedError>>, CodecError>,
) -> bool {
    match fb_opt_table(s, root, 1) {
        None => r == Err::<Option<Result<LeaderInfo, CarriedError>>, CodecError>(
            CodecError::SchemaDecode,
        ),
        Some(None) => r == Err::<Option<Result<LeaderInfo, CarriedError>>, CodecError>(
            CodecError::SchemaDecode,
        ),
        Some(Some(t)) => match (fb_opt_uid(s, t, 0), fb_opt_bytes(s, t, 1), fb_opt_u8(s, t, 2)) {
            (Some(cid_o), Some(si_o), Some(fw_o)) => {
                &&& r is Ok
                &&& r->Ok_0 is Some
                &&& r->Ok_0->0 is Ok
                &&& ({
                    let info = r->Ok_0->0->Ok_0;
                    &&& (info.change_id.uid[0], info.change_id.uid[1]) == (match cid_o {
                        Some(u) => u,
                        None => (0u64, 0u64),
                    })
                    &&& info.serialized_info@ == (match si_o {
                        Some(b) => b,
                        None => Seq::<u8>::empty(),
                    })
                    &&& info.forward == ((match fw_o {
                        Some(b) => b,
                        None => 0u8,
                    }) != 0)
                })
            },
            _ => r == Err::<Option<Result<LeaderInfo, CarriedError>>, CodecError>(
                CodecError::SchemaDecode,
            ),
        },
    }
}

/// Decodes a leader-discovery reply body into its three possible outcomes:
/// structurally absent, a carried error, or a present leader-info value.
pub fn deserialize_reply(buf: &[u8]) -> (r: Result<
    Option<Result<LeaderInfo, CarriedError>>,
    CodecError,
>)
    ensures
        spec_reply_outcome(buf@, r),
{
    let v = vstd::slice::slice_to_vec(buf);
    if v.len() < 4 || v.len() >= 0x4000_0000 {
        return Err(CodecError::SchemaDecode);
    }
    let root = match follow_offset(&v, 0) {
        Err(e) => {
            return Err(e);
        },
        Ok(t) => t,
    };
    let ty = match get_u8_field(&v, root, 0) {
        Err(e) => {
            return Err(e);
        },
        Ok(None) => 0u8,
        Ok(Some(b)) => b,
    };
    if ty == 1 {
        return Ok(Some(Err(CarriedError { error_bytes: v })));
    }
    if ty != 2 {
        return Ok(None);
    }
    let t = match get_table_field(&v, root, 1) {
        Err(e) => {
            return Err(e);
        },
        Ok(None) => {
            return Err(CodecError::SchemaDecode);
        },
        Ok(Some(t)) => t,
    };
    let change_id = match get_uid_field(&v, t, 0) {
        Err(e) => {
            return Err(e);
        },
        Ok(None) => UID { uid: [0, 0] },
        Ok(Some(u)) => u,
    };
    let serialized_info = match get_bytes_field(&v, t, 1) {
        Err(e) => {
            return Err(e);
        },
        Ok(None) => Vec::new(),
        Ok(Some(b)) => b,
    };
    let forward = match get_u8_field(&v, t, 2) {
        Err(e) => {
            return Err(e);
        },
        Ok(None) => 0u8,
        Ok(Some(b)) => b,
    };
    Ok(Some(Ok(LeaderInfo { change_id, forward: forward != 0, serialized_info })))
}

/// Wrapper composition.  Whatever the rest of the payload holds: a reply
/// whose outer, absence-capable layer says "none" (type byte 0, or absent, or
/// unrecognized) decodes to the absent outcome, regardless of the inner
/// wrapper or the payload contents; and one whose error-capable union selects
/// the error arm (type byte 1) surfaces the carried error, never a value.
pub proof fn lemma_reply_wrapper_composition(
    s: Seq<u8>,
    r: Result<Option<Result<LeaderInfo, CarriedError>>, CodecError>,
)
    requires
        spec_reply_outcome(s, r),
        4 <= s.len() < 0x4000_0000,
        fb_table_at(s, 0) is Some,
        fb_opt_u8(s, fb_table_at(s, 0)->0, 0) is Some,
    ensures
        ({
            let ty = match fb_opt_u8(s, fb_table_at(s, 0)->0, 0)->0 {
                Some(b) => b,
                None => 0u8,
            };
            &&& (ty != 1 && ty != 2 ==> r == Ok::<
                Option<Result<LeaderInfo, CarriedError>>,
                CodecError,
            >(None))
            &&& (ty == 1 ==> r is Ok && r->Ok_0 is Some && r->Ok_0->0 is Err
                && r->Ok_0->0->Err_0.error_bytes@ == s)
        }),
{
}

// ---------------------------------------------------------------------------
// The verified builders: the outbound half of the binding
// ---------------------------------------------------------------------------
fn push_u16(v: &mut Vec<u8>, x: u16)
    ensures
        final(v)@ == old(v)@ + spec_u16_to_le_bytes(x),
{
    let mut t = u16_to_le_bytes(x);
    v.append(&mut t);
}

fn push_u32(v: &mut Vec<u8>, x: u32)
    ensures
        final(v)@ == old(v)@ + spec_u32_to_le_bytes(x),
{
    let mut t = u32_to_le_bytes(x);
    v.append(&mut t);
}

fn push_u64(v: &mut Vec<u8>, x: u64)
    ensures
        final(v)@ == old(v)@ + spec_u64_to_le_bytes(x),
{
    let mut t = u64_to_le_bytes(x);
    v.append(&mut t);
}

/// The wire bytes of a serialized request body: root offset, the schema tag
/// at bytes 4..8, the three vtables, the root and request tables (known
/// leader inline, reply promise in a sub-table), and the key vector last.
pub open spec fn spec_request_payload(
    tag_wire: u32,
    key: Seq<u8>,
    kl0: u64,
    kl1: u64,
    rp0: u64,
    rp1: u64,
) -> Seq<u8> {
    spec_u32_to_le_bytes(30) + spec_u32_to_le_bytes(tag_wire) + spec_u16_to_le_bytes(6)
        + spec_u16_to_le_bytes(8) + spec_u16_to_le_bytes(4) + spec_u16_to_le_bytes(10)
        + spec_u16_to_le_bytes(28) + spec_u16_to_le_bytes(24) + spec_u16_to_le_bytes(4)
        + spec_u16_to_le_bytes(20) + spec_u16_to_le_bytes(6) + spec_u16_to_le_bytes(20)
        + spec_u16_to_le_bytes(4) + spec_u32_to_le_bytes(22) + spec_u32_to_le_bytes(4)
        + spec_u32_to_le_bytes(24) + spec_u64_to_le_bytes(kl0) + spec_u64_to_le_bytes(kl1)
        + spec_u32_to_le_bytes(8) + spec_u32_to_le_bytes(24) + spec_u32_to_le_bytes(42)
        + spec_u64_to_le_bytes(rp0) + spec_u64_to_le_bytes(rp1) + spec_u32_to_le_bytes(
        key.len() as u32,
    ) + key
}

/// Every result the decode contract admits for this buffer is a successful
/// parse with exactly these request fields.
pub open spec fn spec_parses_to_request(
    s: Seq<u8>,
    key: Seq<u8>,
    kl0: u64,
    kl1: u64,
    rp0: u64,
    rp1: u64,
) -> bool {
    forall|r: Result<GetLeaderRequest, CodecError>| #[trigger] spec_request_outcome(s, r) ==> {
        &&& r is Ok
        &&& r->Ok_0.key@ == key
        &&& r->Ok_0.known_leader.uid[0] == kl0
        &&& r->Ok_0.known_leader.uid[1] == kl1
        &&& r->Ok_0.reply_promise.uid[0] == rp0
        &&& r->Ok_0.reply_promise.uid[1] == rp1
    }
}

fn build_request_payload(tag_wire: u32, key: &[u8], known_leader: &UID, reply_promise: &UID) -> (v:
    Vec<u8>)
    requires
        key@.len() < 0x10_0000,
    ensures
        v@ == spec_request_payload(
            tag_wire,
            key@,
            known_leader.uid[0],
            known_leader.uid[1],
            reply_promise.uid[0],
            reply_promise.uid[1],
        ),
{
    let mut v = u32_to_le_bytes(30);
    push_u32(&mut v, tag_wire);
    push_u16(&mut v, 6);
    push_u16(&mut v, 8);
    push_u16(&mut v, 4);
    push_u16(&mut v, 10);
    push_u16(&mut v, 28);
    push_u16(&mut v, 24);
    push_u16(&mut v, 4);
    push_u16(&mut v, 20);
    push_u16(&mut v, 6);
    push_u16(&mut v, 20);
    push_u16(&mut v, 4);
    push_u32(&mut v, 22);
    push_u32(&mut v, 4);
    push_u32(&mut v, 24);
    push_u64(&mut v, known_leader.uid[0]);
    push_u64(&mut v, known_leader.uid[1]);
    push_u32(&mut v, 8);
    push_u32(&mut v, 24);
    push_u32(&mut v, 42);
    push_u64(&mut v, reply_promise.uid[0]);
    push_u64(&mut v, reply_promise.uid[1]);
    push_u32(&mut v, key.len() as u32);
    append_slice(&mut v, key);
    v
}

/// The request wire bytes parse back to exactly the fields they were built
/// from, and carry the schema tag at its fixed offset.
pub proof fn lemma_request_payload_parses(
    tag_wire: u32,
    key: Seq<u8>,
    kl0: u64,
    kl1: u64,
    rp0: u64,
    rp1: u64,
)
    requires
        key.len() < 0x10_0000,
    ensures
        ({
            let s = spec_request_payload(tag_wire, key, kl0, kl1, rp0, rp1);
            &&& s.len() == 90 + key.len()
            &&& spec_le32(s, 4) == tag_wire
            &&& spec_parses_to_request(s, key, kl0, kl1, rp0, rp1)
        }),
{
    lemma_auto_spec_u16_to_from_le_bytes();
    lemma_auto_spec_u32_to_from_le_bytes();
    lemma_auto_spec_u64_to_from_le_bytes();
    let s = spec_request_payload(tag_wire, key, kl0, kl1, rp0, rp1);
    assert(s.subrange(0, 4) =~= spec_u32_to_le_bytes(30));
    assert(s.subrange(4, 8) =~= spec_u32_to_le_bytes(tag_wire));
    assert(s.subrange(8, 10) =~= spec_u16_to_le_bytes(6));
    assert(s.subrange(12, 14) =~= spec_u16_to_le_bytes(4));
    assert(s.subrange(14, 16) =~= spec_u16_to_le_bytes(10));
    assert(s.subrange(18, 20) =~= spec_u16_to_le_bytes(24));
    assert(s.subrange(20, 22) =~= spec_u16_to_le_bytes(4));
    assert(s.subrange(22, 24) =~= spec_u16_to_le_bytes(20));
    assert(s.subrange(24, 26) =~= spec_u16_to_le_bytes(6));
    assert(s.subrange(28, 30) =~= spec_u16_to_le_bytes(4));
    assert(s.subrange(30, 34) =~= spec_u32_to_le_bytes(22));
    assert(s.subrange(34, 38) =~= spec_u32_to_le_bytes(4));
    assert(s.subrange(38, 42) =~= spec_u32_to_le_bytes(24));
    assert(s.subrange(42, 50) =~= spec_u64_to_le_bytes(kl0));
    assert(s.subrange(50, 58) =~= spec_u64_to_le_bytes(kl1));
    assert(s.subrange(58, 62) =~= spec_u32_to_le_bytes(8));
    assert(s.subrange(62, 66) =~= spec_u32_to_le_bytes(24));
    assert(s.subrange(66, 70) =~= spec_u32_to_le_bytes(42));
    assert(s.subrange(70, 78) =~= spec_u64_to_le_bytes(rp0));
    assert(s.subrange(78, 86) =~= spec_u64_to_le_bytes(rp1));
    assert(s.subrange(86, 90) =~= spec_u32_to_le_bytes(key.len() as u32));
    assert(s.subrange(90, 90 + key.len() as int) =~= key);
    assert(fb_table_at(s, 0) == Some(30int));
    assert(fb_field(s, 30, 0) == FieldLookup::At(34));
    assert(fb_opt_table(s, 30, 0) == Some(Some(38int)));
    assert(fb_field(s, 38, 0) == FieldLookup::At(62));
    assert(fb_bytes_at(s, 62) == Some(key));
    assert(fb_opt_bytes(s, 38, 0) == Some(Some(key)));
    assert(fb_field(s, 38, 1) == FieldLookup::At(42));
    assert(fb_opt_uid(s, 38, 1) == Some(Some((kl0, kl1))));
    assert(fb_field(s, 38, 2) == FieldLookup::At(58));
    assert(fb_opt_table(s, 38, 2) == Some(Some(66int)));
    assert(fb_field(s, 66, 0) == FieldLookup::At(70));
    assert(fb_opt_uid(s, 66, 0) == Some(Some((rp0, rp1))));
}

/// Builds the leader-discovery request: the cluster key, the known-leader
/// hint and the freshly generated reply address serialized into a
/// schema-codec buffer, tagged with the request schema tag at its fixed
/// offset, and sealed into a frame addressed to the well-known get-leader
/// endpoint.  An oversize key is a construction error, never a panic.
pub fn serialize_request(cluster_key: &[u8], known_leader: UID, reply_promise: UID) -> (r: Result<
    Frame,
    CodecError,
>)
    ensures
        match r {
            Ok(f) => {
                &&& 106 + cluster_key@.len() < MAX_FDB_FRAME_LENGTH
                &&& f.token.uid[0] == u64::MAX
                &&& f.token.uid[1] == spec_wltoken_code(WLTOKEN::ClientLeaderRegGetLeader)
                &&& f.checksum == Some(
                    spec_frame_checksum(f.token.uid[0], f.token.uid[1], f.payload@),
                )
                &&& f.payload@.len() == 90 + cluster_key@.len()
                &&& spec_le32(f.payload@, 4) == spec_file_identifier_wire(
                    spec_get_leader_request_tag(),
                )
                &&& spec_parses_to_request(
                    f.payload@,
                    cluster_key@,
                    known_leader.uid[0],
                    known_leader.uid[1],
                    reply_promise.uid[0],
                    reply_promise.uid[1],
                )
            },
            Err(e) => {
                &&& e == CodecError::FrameTooLong
                &&& 106 + cluster_key@.len() >= MAX_FDB_FRAME_LENGTH
            },
        },
{
    if cluster_key.len() >= (MAX_FDB_FRAME_LENGTH - 106) as usize {
        return Err(CodecError::FrameTooLong);
    }
    let tag_wire = get_leader_request_tag().to_wire();
    let payload = build_request_payload(tag_wire, cluster_key, &known_leader, &reply_promise);
    proof {
        lemma_request_payload_parses(
            tag_wire,
            cluster_key@,
            known_leader.uid[0],
            known_leader.uid[1],
            reply_promise.uid[0],
            reply_promise.uid[1],
        );
    }
    let token = UID::well_known_token(WLTOKEN::ClientLeaderRegGetLeader);
    Ok(Frame::new_reply(token, payload))
}

/// The wire bytes of a serialized reply body: root offset, the schema tag,
/// the two vtables, the root table carrying the union (type byte 2: a value
/// is present), the leader-info table, and the serialized-info vector last.
pub open spec fn spec_reply_payload(
    tag_wire: u32,
    cid0: u64,
    cid1: u64,
    forward: bool,
    info: Seq<u8>,
) -> Seq<u8> {
    spec_u32_to_le_bytes(26) + spec_u32_to_le_bytes(tag_wire) + spec_u16_to_le_bytes(8)
        + spec_u16_to_le_bytes(9) + spec_u16_to_le_bytes(8) + spec_u16_to_le_bytes(4)
        + spec_u16_to_le_bytes(10) + spec_u16_to_le_bytes(25) + spec_u16_to_le_bytes(4)
        + spec_u16_to_le_bytes(20) + spec_u16_to_le_bytes(24) + spec_u32_to_le_bytes(18)
        + spec_u32_to_le_bytes(5) + seq![2u8] + spec_u32_to_le_bytes(19) + spec_u64_to_le_bytes(
        cid0,
    ) + spec_u64_to_le_bytes(cid1) + spec_u32_to_le_bytes(5) + seq![
        if forward {
            1u8
        } else {
            0u8
        },
    ] + spec_u32_to_le_bytes(info.len() as u32) + info
}

/// Every result the decode contract admits for this buffer is a present,
/// error-free value with exactly these leader-info fields.
pub open spec fn spec_parses_to_reply(
    s: Seq<u8>,
    cid0: u64,
    cid1: u64,
    forward: bool,
    info: Seq<u8>,
) -> bool {
    forall|r: Result<Option<Result<LeaderInfo, CarriedError>>, CodecError>|
        #[trigger] spec_reply_outcome(s, r) ==> {
            &&& r is Ok
            &&& r->Ok_0 is Some
            &&& r->Ok_0->0 is Ok
            &&& r->Ok_0->0->Ok_0.change_id.uid[0] == cid0
            &&& r->Ok_0->0->Ok_0.change_id.uid[1] == cid1
            &&& r->Ok_0->0->Ok_0.forward == forward
            &&& r->Ok_0->0->Ok_0.serialized_info@ == info
        }
}

fn build_reply_payload(tag_wire: u32, change_id: &UID, forward: bool, info: &[u8]) -> (v: Vec<u8>)
    requires
        info@.len() < 0x10_0000,
    ensures
        v@ == spec_reply_payload(tag_wire, change_id.uid[0], change_id.uid[1], forward, info@),
{
    let mut v = u32_to_le_bytes(26);
    push_u32(&mut v, tag_wire);
    push_u16(&mut v, 8);
    push_u16(&mut v, 9);
    push_u16(&mut v, 8);
    push_u16(&mut v, 4);
    push_u16(&mut v, 10);
    push_u16(&mut v, 25);
    push_u16(&mut v, 4);
    push_u16(&mut v, 20);
    push_u16(&mut v, 24);
    push_u32(&mut v, 18);
    push_u32(&mut v, 5);
    v.push(2u8);
    push_u32(&mut v, 19);
    push_u64(&mut v, change_id.uid[0]);
    push_u64(&mut v, change_id.uid[1]);
    push_u32(&mut v, 5);
    if forward {
        v.push(1u8);
    } else {
        v.push(0u8);
    }
    push_u32(&mut v, info.len() as u32);
    append_slice(&mut v, info);
    assert(v@ =~= spec_reply_payload(
        tag_wire,
        change_id.uid[0],
        change_id.uid[1],
        forward,
        info@,
    ));
    v
}

/// The reply wire bytes parse back to a present, error-free value with
/// exactly the fields they were built from, and carry the schema tag at its
/// fixed offset.
pub proof fn lemma_reply_payload_parses(
    tag_wire: u32,
    cid0: u64,
    cid1: u64,
    forward: bool,
    info: Seq<u8>,
)
    requires
        info.len() < 0x10_0000,
    ensures
        ({
            let s = spec_reply_payload(tag_wire, cid0, cid1, forward, info);
            &&& s.len() == 64 + info.len()
            &&& spec_le32(s, 4) == tag_wire
            &&& spec_parses_to_reply(s, cid0, cid1, forward, info)
        }),
{
    lemma_auto_spec_u16_to_from_le_bytes();
    lemma_auto_spec_u32_to_from_le_bytes();
    lemma_auto_spec_u64_to_from_le_bytes();
    let s = spec_reply_payload(tag_wire, cid0, cid1, forward, info);
    assert(s.subrange(0, 4) =~= spec_u32_to_le_bytes(26));
    assert(s.subrange(4, 8) =~= spec_u32_to_le_bytes(tag_wire));
    assert(s.subrange(8, 10) =~= spec_u16_to_le_bytes(8));
    assert(s.subrange(12, 14) =~= spec_u16_to_le_bytes(8));
    assert(s.subrange(14, 16) =~= spec_u16_to_le_bytes(4));
    assert(s.subrange(16, 18) =~= spec_u16_to_le_bytes(10));
    assert(s.subrange(20, 22) =~= spec_u16_to_le_bytes(4));
    assert(s.subrange(22, 24) =~= spec_u16_to_le_bytes(20));
    assert(s.subrange(24, 26) =~= spec_u16_to_le_bytes(24));
    assert(s.subrange(26, 30) =~= spec_u32_to_le_bytes(18));
    assert(s.subrange(30, 34) =~= spec_u32_to_le_bytes(5));
    assert(s[34] == 2u8);
    assert(s.subrange(35, 39) =~= spec_u32_to_le_bytes(19));
    assert(s.subrange(39, 47) =~= spec_u64_to_le_bytes(cid0));
    assert(s.subrange(47, 55) =~= spec_u64_to_le_bytes(cid1));
    assert(s.subrange(55, 59) =~= spec_u32_to_le_bytes(5));
    assert(s[59] == (if forward {
        1u8
    } else {
        0u8
    }));
    assert(s.subrange(60, 64) =~= spec_u32_to_le_bytes(info.len() as u32));
    assert(s.subrange(64, 64 + info.len() as int) =~= info);
    assert(fb_table_at(s, 0) == Some(26int));
    assert(fb_field(s, 26, 0) == FieldLookup::At(34));
    assert(fb_opt_u8(s, 26, 0) == Some(Some(2u8)));
    assert(fb_field(s, 26, 1) == FieldLookup::At(30));
    assert(fb_opt_table(s, 26, 1) == Some(Some(35int)));
    assert(fb_field(s, 35, 0) == FieldLookup::At(39));
    assert(fb_opt_uid(s, 35, 0) == Some(Some((cid0, cid1))));
    assert(fb_field(s, 35, 1) == FieldLookup::At(55));
    assert(fb_bytes_at(s, 55) == Some(info));
    assert(fb_opt_bytes(s, 35, 1) == Some(Some(info)));
    assert(fb_field(s, 35, 2) == FieldLookup::At(59));
    assert(fb_opt_u8(s, 35, 2) == Some(
        Some(
            if forward {
                1u8
            } else {
                0u8
            },
        ),
    ));
}

/// Builds the leader-discovery reply: the leadership epoch, the forwarding
/// flag and the opaque leader info serialized into a schema-codec buffer,
/// wrapped per the reply tag's composition with the value present and
/// error-free, tagged at the fixed offset, and sealed into a frame addressed
/// back to the correlation token.  An oversize value is a construction error.
pub fn serialize_reply(token: UID, change_id: UID, forward: bool, serialized_info: &[u8]) -> (r:
    Result<Frame, CodecError>)
    ensures
        match r {
            Ok(f) => {
                &&& 80 + serialized_info@.len() < MAX_FDB_FRAME_LENGTH
                &&& f.token == token
                &&& f.checksum == Some(
                    spec_frame_checksum(token.uid[0], token.uid[1], f.payload@),
                )
                &&& f.payload@.len() == 64 + serialized_info@.len()
                &&& spec_le32(f.payload@, 4) == spec_file_identifier_wire(
                    spec_get_leader_reply_tag(),
                )
                &&& spec_parses_to_reply(
                    f.payload@,
                    change_id.uid[0],
                    change_id.uid[1],
                    forward,
                    serialized_info@,
                )
            },
            Err(e) => {
                &&& e == CodecError::FrameTooLong
                &&& 80 + serialized_info@.len() >= MAX_FDB_FRAME_LENGTH
            },
        },
{
    if serialized_info.len() >= (MAX_FDB_FRAME_LENGTH - 80) as usize {
        return Err(CodecError::FrameTooLong);
    }
    let tag_wire = get_leader_reply_tag().to_wire();
    let payload = build_reply_payload(tag_wire, &change_id, forward, serialized_info);
    proof {
        lemma_reply_payload_parses(
            tag_wire,
            change_id.uid[0],
            change_id.uid[1],
            forward,
            serialized_info@,
        );
    }
    Ok(Frame::new_reply(token, payload))
}

} // verus!
