//! 128-bit identifiers (tokens) used as connection-scoped reply addresses and
//! stable endpoint addresses, together with the catalog of reserved well-known
//! addresses.

use vstd::prelude::*;

verus! {

/// A 128-bit identifier: two 64-bit words, order-significant, compared by
/// value.  All-zero is the only invalid value.
#[derive(Clone, Copy, PartialEq, Eq, Hash, Debug)]
pub struct UID {
    pub uid: [u64; 2],
}

/// The catalog of reserved protocol endpoints.  A well-known token's first
/// word is all-ones and its second word's low 32 bits hold the catalog code.
#[derive(Clone, Copy, PartialEq, Eq, Structural, Hash, Debug)]
pub enum WLTOKEN {
    EndpointNotFound,
    PingPacket,
    AuthTenant,
    UnauthorizedEndpoint,
    ClientLeaderRegGetLeader,
    ClientLeaderRegOpenDatabase,
    LeaderElectionRegCandidacy,
    LeaderElectionRegElectionResult,
    LeaderElectionRegLeaderHeartBeat,
    LeaderElectionRegForward,
    ProtocolInfo,
    GenerationRegRead,
    GenerationRegWrite,
    ClientLeaderRegDescriptorMutable,
    ConfigTxnGetGeneration,
    ConfigTxnGet,
    ConfigTxnGetClasses,
    ConfigTxnGetKnobs,
    ConfigTxnCommit,
    ConfigFollowerGetSnapshotAndChanges,
    ConfigFollowerGetChanges,
    ConfigFollowerCompact,
    ConfigFollowerRollForward,
    ConfigFollowerGetCommittedVersion,
    Process,
    ReservedForTesting,
    ReservedCount,
}

/// The catalog code of a well-known endpoint.
pub open spec fn spec_wltoken_code(t: WLTOKEN) -> u64 {
    match t {
        WLTOKEN::EndpointNotFound => 0,
        WLTOKEN::PingPacket => 1,
        WLTOKEN::AuthTenant => 2,
        WLTOKEN::UnauthorizedEndpoint => 3,
        WLTOKEN::ClientLeaderRegGetLeader => 4,
        WLTOKEN::ClientLeaderRegOpenDatabase => 5,
        WLTOKEN::LeaderElectionRegCandidacy => 6,
        WLTOKEN::LeaderElectionRegElectionResult => 7,
        WLTOKEN::LeaderElectionRegLeaderHeartBeat => 8,
        WLTOKEN::LeaderElectionRegForward => 9,
        WLTOKEN::ProtocolInfo => 10,
        WLTOKEN::GenerationRegRead => 11,
        WLTOKEN::GenerationRegWrite => 12,
        WLTOKEN::ClientLeaderRegDescriptorMutable => 13,
        WLTOKEN::ConfigTxnGetGeneration => 14,
        WLTOKEN::ConfigTxnGet => 15,
        WLTOKEN::ConfigTxnGetClasses => 16,
        WLTOKEN::ConfigTxnGetKnobs => 17,
        WLTOKEN::ConfigTxnCommit => 18,
        WLTOKEN::ConfigFollowerGetSnapshotAndChanges => 19,
        WLTOKEN::ConfigFollowerGetChanges => 20,
        WLTOKEN::ConfigFollowerCompact => 21,
        WLTOKEN::ConfigFollowerRollForward => 22,
        WLTOKEN::ConfigFollowerGetCommittedVersion => 23,
        WLTOKEN::Process => 24,
        WLTOKEN::ReservedForTesting => 25,
        WLTOKEN::ReservedCount => 26,
    }
}

/// The inverse of `spec_wltoken_code`, over all 64-bit values.
pub open spec fn spec_wltoken_from_code(c: u64) -> Option<WLTOKEN> {
    if c == 0 {
        Some(WLTOKEN::EndpointNotFound)
    } else if c == 1 {
        Some(WLTOKEN::PingPacket)
    } else if c == 2 {
        Some(WLTOKEN::AuthTenant)
    } else if c == 3 {
        Some(WLTOKEN::UnauthorizedEndpoint)
    } else if c == 4 {
        Some(WLTOKEN::ClientLeaderRegGetLeader)
    } else if c == 5 {
        Some(WLTOKEN::ClientLeaderRegOpenDatabase)
    } else if c == 6 {
        Some(WLTOKEN::LeaderElectionRegCandidacy)
    } else if c == 7 {
        Some(WLTOKEN::LeaderElectionRegElectionResult)
    } else if c == 8 {
        Some(WLTOKEN::LeaderElectionRegLeaderHeartBeat)
    } else if c == 9 {
        Some(WLTOKEN::LeaderElectionRegForward)
    } else if c == 10 {
        Some(WLTOKEN::ProtocolInfo)
    } else if c == 11 {
        Some(WLTOKEN::GenerationRegRead)
    } else if c == 12 {
        Some(WLTOKEN::GenerationRegWrite)
    } else if c == 13 {
        Some(WLTOKEN::ClientLeaderRegDescriptorMutable)
    } else if c == 14 {
        Some(WLTOKEN::ConfigTxnGetGeneration)
    } else if c == 15 {
        Some(WLTOKEN::ConfigTxnGet)
    } else if c == 16 {
        Some(WLTOKEN::ConfigTxnGetClasses)
    } else if c == 17 {
        Some(WLTOKEN::ConfigTxnGetKnobs)
    } else if c == 18 {
        Some(WLTOKEN::ConfigTxnCommit)
    } else if c == 19 {
        Some(WLTOKEN::ConfigFollowerGetSnapshotAndChanges)
    } else if c == 20 {
        Some(WLTOKEN::ConfigFollowerGetChanges)
    } else if c == 21 {
        Some(WLTOKEN::ConfigFollowerCompact)
    } else if c == 22 {
        Some(WLTOKEN::ConfigFollowerRollForward)
    } else if c == 23 {
        Some(WLTOKEN::ConfigFollowerGetCommittedVersion)
    } else if c == 24 {
        Some(WLTOKEN::Process)
    } else if c == 25 {
        Some(WLTOKEN::ReservedForTesting)
    } else if c == 26 {
        Some(WLTOKEN::ReservedCount)
    } else {
        None
    }
}

impl WLTOKEN {
    /// The catalog code of this endpoint.
    pub fn code(&self) -> (c: u64)
        ensures
            c == spec_wltoken_code(*self),
    {
        match self {
            WLTOKEN::EndpointNotFound => 0,
            WLTOKEN::PingPacket => 1,
            WLTOKEN::AuthTenant => 2,
            WLTOKEN::UnauthorizedEndpoint => 3,
            WLTOKEN::ClientLeaderRegGetLeader => 4,
            WLTOKEN::ClientLeaderRegOpenDatabase => 5,
            WLTOKEN::LeaderElectionRegCandidacy => 6,
            WLTOKEN::LeaderElectionRegElectionResult => 7,
            WLTOKEN::LeaderElectionRegLeaderHeartBeat => 8,
            WLTOKEN::LeaderElectionRegForward => 9,
            WLTOKEN::ProtocolInfo => 10,
            WLTOKEN::GenerationRegRead => 11,
            WLTOKEN::GenerationRegWrite => 12,
            WLTOKEN::ClientLeaderRegDescriptorMutable => 13,
            WLTOKEN::ConfigTxnGetGeneration => 14,
            WLTOKEN::ConfigTxnGet => 15,
            WLTOKEN::ConfigTxnGetClasses => 16,
            WLTOKEN::ConfigTxnGetKnobs => 17,
            WLTOKEN::ConfigTxnCommit => 18,
            WLTOKEN::ConfigFollowerGetSnapshotAndChanges => 19,
            WLTOKEN::ConfigFollowerGetChanges => 20,
            WLTOKEN::ConfigFollowerCompact => 21,
            WLTOKEN::ConfigFollowerRollForward => 22,
            WLTOKEN::ConfigFollowerGetCommittedVersion => 23,
            WLTOKEN::Process => 24,
            WLTOKEN::ReservedForTesting => 25,
            WLTOKEN::ReservedCount => 26,
        }
    }

    /// The catalog entry for a code, if the code is recognized.
    pub fn from_code(c: u64) -> (t: Option<WLTOKEN>)
        ensures
            t == spec_wltoken_from_code(c),
    {
        if c == 0 {
            Some(WLTOKEN::EndpointNotFound)
        } else if c == 1 {
            Some(WLTOKEN::PingPacket)
        } else if c == 2 {
            Some(WLTOKEN::AuthTenant)
        } else if c == 3 {
            Some(WLTOKEN::UnauthorizedEndpoint)
        } else if c == 4 {
            Some(WLTOKEN::ClientLeaderRegGetLeader)
        } else if c == 5 {
            Some(WLTOKEN::ClientLeaderRegOpenDatabase)
        } else if c == 6 {
            Some(WLTOKEN::LeaderElectionRegCandidacy)
        } else if c == 7 {
            Some(WLTOKEN::LeaderElectionRegElectionResult)
        } else if c == 8 {
            Some(WLTOKEN::LeaderElectionRegLeaderHeartBeat)
        } else if c == 9 {
            Some(WLTOKEN::LeaderElectionRegForward)
        } else if c == 10 {
            Some(WLTOKEN::ProtocolInfo)
        } else if c == 11 {
            Some(WLTOKEN::GenerationRegRead)
        } else if c == 12 {
            Some(WLTOKEN::GenerationRegWrite)
        } else if c == 13 {
            Some(WLTOKEN::ClientLeaderRegDescriptorMutable)
        } else if c == 14 {
            Some(WLTOKEN::ConfigTxnGetGeneration)
        } else if c == 15 {
            Some(WLTOKEN::ConfigTxnGet)
        } else if c == 16 {
            Some(WLTOKEN::ConfigTxnGetClasses)
        } else if c == 17 {
            Some(WLTOKEN::ConfigTxnGetKnobs)
        } else if c == 18 {
            Some(WLTOKEN::ConfigTxnCommit)
        } else if c == 19 {
            Some(WLTOKEN::ConfigFollowerGetSnapshotAndChanges)
        } else if c == 20 {
            Some(WLTOKEN::ConfigFollowerGetChanges)
        } else if c == 21 {
            Some(WLTOKEN::ConfigFollowerCompact)
        } else if c == 22 {
            Some(WLTOKEN::ConfigFollowerRollForward)
        } else if c == 23 {
            Some(WLTOKEN::ConfigFollowerGetCommittedVersion)
        } else if c == 24 {
            Some(WLTOKEN::Process)
        } else if c == 25 {
            Some(WLTOKEN::ReservedForTesting)
        } else if c == 26 {
            Some(WLTOKEN::ReservedCount)
        } else {
            None
        }
    }
}

/// Relies on fastrand::u64 over the full range: an unconstrained 64-bit
/// value.  Nothing can be promised of a random draw.
#[verifier::external_body]
fn random_u64() -> u64 {
    fastrand::u64(..)
}

impl UID {
    /// Interprets 16 raw bytes as two little-endian 64-bit words.  Total:
    /// succeeds for every 16-byte input.
    pub fn new(uid: [u8; 16]) -> (r: Result<UID, crate::CodecError>)
        ensures
            r matches Ok(u) && u.uid[0] == vstd::bytes::spec_u64_from_le_bytes(
                uid@.subrange(0, 8),
            ) && u.uid[1] == vstd::bytes::spec_u64_from_le_bytes(uid@.subrange(8, 16)),
    {
        let s = uid.as_slice();
        Ok(
            UID {
                uid: [
                    vstd::bytes::u64_from_le_bytes(vstd::slice::slice_subrange(s, 0, 8)),
                    vstd::bytes::u64_from_le_bytes(vstd::slice::slice_subrange(s, 8, 16)),
                ],
            },
        )
    }

    /// The reserved token of a catalog endpoint: first word all-ones, second
    /// word the catalog code.
    pub fn well_known_token(id: WLTOKEN) -> (r: UID)
        ensures
            r.uid[0] == u64::MAX,
            r.uid[1] == spec_wltoken_code(id),
    {
        UID { uid: [u64::MAX, id.code()] }
    }

    /// A uniformly random token, used as a fresh correlation or reply
    /// address.  Nothing is promised of the words drawn.
    pub fn random_token() -> UID {
        UID { uid: [random_u64(), random_u64()] }
    }

    /// Derives the address of the `index`-th sibling sub-endpoint: the index
    /// is folded into the high 32 bits of the first word and added into the
    /// second word under its upper-32-bit mask.  Pure and total; the words
    /// wrap rather than overflow.
    pub fn get_adjusted_token(&self, index: u32) -> (r: UID)
        ensures
            r.uid[0] == spec_adjusted_word0(self.uid[0], index),
            r.uid[1] == spec_adjusted_word1(self.uid[1], index),
    {
        let new_index = self.uid[0].wrapping_add((index as u64) << 32);
        let second = (self.uid[1] & 0xffff_ffff_0000_0000) | self.uid[1].wrapping_add(index as u64);
        UID { uid: [new_index, second] }
    }

    /// A token is valid unless it is all-zero.
    pub fn is_valid(&self) -> (r: bool)
        ensures
            r == (self.uid[0] != 0 || self.uid[1] != 0),
    {
        self.uid[0] != 0 || self.uid[1] != 0
    }

    /// The inverse of `well_known_token`: the catalog entry addressed by this
    /// token, or nothing if the first word is not all-ones or the code in the
    /// low 32 bits of the second word is unrecognized.
    pub fn get_well_known_endpoint(&self) -> (r: Option<WLTOKEN>)
        ensures
            r == spec_lookup_well_known(*self),
    {
        if self.uid[0] != u64::MAX {
            None
        } else {
            WLTOKEN::from_code(self.uid[1] & 0xffff_ffff)
        }
    }
}

/// A 64-bit sum that wraps rather than overflows.
pub open spec fn spec_wrapping_add64(x: u64, y: u64) -> u64 {
    if x + y > u64::MAX {
        (x + y - 0x1_0000_0000_0000_0000) as u64
    } else {
        (x + y) as u64
    }
}

/// The first word of an adjusted token: the base word plus the index shifted
/// into the high 32 bits, wrapping.
pub open spec fn spec_adjusted_word0(w0: u64, index: u32) -> u64 {
    spec_wrapping_add64(w0, (index as u64) << 32)
}

/// The second word of an adjusted token: the base word's upper 32 bits kept,
/// or-ed with the base word plus the index, wrapping.
pub open spec fn spec_adjusted_word1(w1: u64, index: u32) -> u64 {
    (w1 & 0xffff_ffff_0000_0000) | spec_wrapping_add64(w1, index as u64)
}

/// What `get_well_known_endpoint` returns: the catalog entry decoded from the
/// low 32 bits of the second word, provided the first word is all-ones.
pub open spec fn spec_lookup_well_known(u: UID) -> Option<WLTOKEN> {
    if u.uid[0] != u64::MAX {
        None
    } else {
        spec_wltoken_from_code(u.uid[1] & 0xffff_ffff)
    }
}

/// Every catalog code is at most 26, and `spec_wltoken_from_code` inverts
/// `spec_wltoken_code`.
pub proof fn lemma_code_inverse(id: WLTOKEN)
    ensures
        spec_wltoken_code(id) <= 26,
        spec_wltoken_from_code(spec_wltoken_code(id)) == Some(id),
{
}

/// Looking up the well-known token of any catalog code recovers that code.
pub proof fn lemma_well_known_symmetry(id: WLTOKEN)
    ensures
        ({
            let t = UID { uid: [u64::MAX, spec_wltoken_code(id)] };
            spec_lookup_well_known(t) == Some(id)
        }),
{
    lemma_code_inverse(id);
    let c = spec_wltoken_code(id);
    assert(c & 0xffff_ffff == c) by (bit_vector)
        requires
            c <= 26,
    ;
}

/// Recovering the catalog code from an adjusted well-known token: restoring
/// the first word to all-ones and removing the index from the low 32 bits of
/// the second word yields a token that the catalog lookup still recognizes.
/// (The adjustment adds the index into the low 32 bits, so removing it — not
/// masking alone — is what undoes it.)
pub proof fn lemma_adjusted_token_recoverable(id: WLTOKEN, index: u32)
    requires
        index <= 16,
    ensures
        ({
            let adj1 = spec_adjusted_word1(spec_wltoken_code(id), index);
            let masked = UID { uid: [u64::MAX, ((adj1 & 0xffff_ffff) - index) as u64] };
            spec_lookup_well_known(masked) == Some(id)
        }),
{
    lemma_code_inverse(id);
    let c = spec_wltoken_code(id);
    let adj1 = spec_adjusted_word1(c, index);
    assert(c + index <= u64::MAX);
    let sum = (c + index) as u64;
    assert((c & 0xffff_ffff_0000_0000) | sum == sum) by (bit_vector)
        requires
            c <= 26,
            sum == c + index,
            index <= 16,
    ;
    assert(sum & 0xffff_ffff == sum) by (bit_vector)
        requires
            sum <= 42,
    ;
    let rec = ((adj1 & 0xffff_ffff) - index) as u64;
    assert(rec == c);
    assert(rec & 0xffff_ffff == rec) by (bit_vector)
        requires
            rec <= 26,
    ;
}

/// Distinct indices address distinct sibling sub-endpoints: the adjustment is
/// injective in the index over the whole 32-bit range, already in the first
/// word alone.
pub proof fn lemma_adjusted_token_injective(w0: u64, i: u32, j: u32)
    requires
        i != j,
    ensures
        spec_adjusted_word0(w0, i) != spec_adjusted_word0(w0, j),
{
    let iv = i as u64;
    let jv = j as u64;
    assert(iv << 32 == iv * 0x1_0000_0000) by (bit_vector)
        requires
            iv < 0x1_0000_0000,
    ;
    assert(jv << 32 == jv * 0x1_0000_0000) by (bit_vector)
        requires
            jv < 0x1_0000_0000,
    ;
}

} // verus!
