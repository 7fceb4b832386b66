//! The persisted execution position: which block runs next, the state root
//! reached so far, and the fork-choice hashes given by the consensus client.
//!
//! The position is stored under `EXECUTION_POSITION_DB_KEY` as an RLP list of
//! its fields. Records written by the first version of the format carry
//! version 1 and no fork-choice hashes; they are read back as version 2
//! positions with zero hashes.
use crate::rlp::{
    rlp_bytes32, rlp_decode_bytes32, rlp_decode_header, rlp_decode_u64, rlp_decode_u8,
    rlp_encode_bytes32, rlp_encode_list_header, rlp_encode_u64, rlp_encode_u8, rlp_header_decoding,
    rlp_list_header, rlp_uint, starts_with,
};
use crate::rlp::rlp_error_text;
use crate::text::{decimal_string, decimal_text};
use vstd::bytes::spec_u64_from_le_bytes;
use vstd::prelude::*;
use vstd::string::StringExecFns;

verus! {

/// The key under which the execution position is stored.
pub const EXECUTION_POSITION_DB_KEY: [u8; 18] = [
    0x45u8, 0x58u8, 0x45u8, 0x43u8, 0x55u8, 0x54u8, 0x49u8, 0x4fu8, 0x4eu8, 0x5fu8, 0x50u8, 0x4fu8,
    0x53u8, 0x49u8, 0x54u8, 0x49u8, 0x4fu8, 0x4eu8,
];

/// Root hash of the empty Merkle-Patricia trie: keccak256 of the RLP empty string.
pub const EMPTY_ROOT_HASH: [u8; 32] = [
    0x56u8, 0xe8u8, 0x1fu8, 0x17u8, 0x1bu8, 0xccu8, 0x55u8, 0xa6u8, 0xffu8, 0x83u8, 0x45u8, 0xe6u8,
    0x92u8, 0xc0u8, 0xf8u8, 0x6eu8, 0x5bu8, 0x48u8, 0xe0u8, 0x1bu8, 0x99u8, 0x6cu8, 0xadu8, 0xc0u8,
    0x01u8, 0x62u8, 0x2fu8, 0xb5u8, 0xe3u8, 0x63u8, 0xb4u8, 0x21u8,
];

/// The all-zero 32-byte hash.
pub const ZERO_HASH: [u8; 32] = [
    0u8, 0u8, 0u8, 0u8, 0u8, 0u8, 0u8, 0u8, 0u8, 0u8, 0u8, 0u8, 0u8, 0u8, 0u8, 0u8, 0u8, 0u8, 0u8,
    0u8, 0u8, 0u8, 0u8, 0u8, 0u8, 0u8, 0u8, 0u8, 0u8, 0u8, 0u8, 0u8,
];

/// Fork-choice state handed over by the consensus client.
#[derive(Clone, Copy, Debug, PartialEq, Eq)]
pub struct ForkchoiceState {
    /// Hash of the head block.
    pub head_block_hash: [u8; 32],
    /// Hash of the safe block.
    pub safe_block_hash: [u8; 32],
    /// Hash of the finalized block.
    pub finalized_block_hash: [u8; 32],
}

/// Progress of block execution as reported by `eth_syncing`.
#[derive(Clone, Copy, Debug, PartialEq, Eq)]
pub enum SyncStatus {
    /// The last executed block is the latest known block.
    NotSyncing,
    /// Execution is behind the latest known block.
    Syncing { starting_block: u64, current_block: u64, highest_block: u64 },
}

/// The sync status of a position.
pub open spec fn sync_status_of(m: PositionModel) -> SyncStatus {
    let current = if m.next_block_number == 0 {
        0
    } else {
        (m.next_block_number - 1) as u64
    };
    if current == m.latest_block_number {
        SyncStatus::NotSyncing
    } else {
        SyncStatus::Syncing {
            starting_block: m.starting_block_number,
            current_block: current,
            highest_block: m.latest_block_number,
        }
    }
}

/// Why a stored execution position could not be read.
#[derive(Debug, PartialEq, Eq)]
pub enum ExecutionPositionError {
    /// The outer RLP header of the record could not be decoded; the decoder's
    /// error.
    PositionHeader(alloy_rlp::Error),
    /// The RLP header of the version field could not be decoded; the
    /// decoder's error.
    VersionHeader(alloy_rlp::Error),
    /// The record is not a well-formed RLP list of the fields of its version.
    Record,
    /// The record carries a version that this code does not know.
    InvalidVersion(u64),
}

/// Which header of a stored record could not be decoded.
#[derive(Clone, Copy, Debug, PartialEq, Eq)]
pub enum HeaderFailure {
    /// The outer list header.
    Position,
    /// The header of the version field.
    Version,
}

/// The header failure an error reports, if it reports one.
pub open spec fn header_failure_of(e: ExecutionPositionError) -> Option<HeaderFailure> {
    match e {
        ExecutionPositionError::PositionHeader(_) => Some(HeaderFailure::Position),
        ExecutionPositionError::VersionHeader(_) => Some(HeaderFailure::Version),
        _ => None,
    }
}

/// The message of an error reading a stored position, up to the decoder's own
/// error text, which the header messages end with.
pub open spec fn position_error_text(e: ExecutionPositionError, detail: Seq<char>) -> Seq<char> {
    match e {
        ExecutionPositionError::PositionHeader(_) => "Failed to decode execution_position header: "@
            + detail,
        ExecutionPositionError::VersionHeader(_) => "Failed to decode version header: "@ + detail,
        ExecutionPositionError::Record => "Failed to decode execution position record"@,
        ExecutionPositionError::InvalidVersion(v) => "Invalid version: "@ + decimal_text(v as nat),
    }
}

impl ExecutionPositionError {
    /// The message this error is reported with: for a header error, the
    /// message ends with the decoder's error as its `Debug` text shows it.
    pub fn message(&self) -> (m: String)
        ensures
            exists|detail: Seq<char>| m@ == position_error_text(*self, detail),
    {
        match self {
            ExecutionPositionError::PositionHeader(e) => {
                let mut m = String::from_str("Failed to decode execution_position header: ");
                let detail = rlp_error_text(e);
                m.append(detail.as_str());
                assert(m@ == position_error_text(*self, detail@));
                m
            },
            ExecutionPositionError::VersionHeader(e) => {
                let mut m = String::from_str("Failed to decode version header: ");
                let detail = rlp_error_text(e);
                m.append(detail.as_str());
                assert(m@ == position_error_text(*self, detail@));
                m
            },
            ExecutionPositionError::Record => {
                let m = "Failed to decode execution position record".to_string();
                assert(m@ == position_error_text(*self, Seq::empty()));
                m
            },
            ExecutionPositionError::InvalidVersion(v) => {
                let mut m = String::from_str("Invalid version: ");
                m.append(decimal_string(*v).as_str());
                assert(m@ == position_error_text(*self, Seq::empty()));
                m
            },
        }
    }
}

/// Abstract contents of a version 1 record.
pub struct PositionV1Model {
    pub version: u8,
    pub state_root: [u8; 32],
    pub next_block_number: u64,
    pub starting_block_number: u64,
    pub latest_block_number: u64,
}

/// Abstract contents of a version 2 position.
pub struct PositionModel {
    pub version: u64,
    pub state_root: [u8; 32],
    pub next_block_number: u64,
    pub starting_block_number: u64,
    pub latest_block_number: u64,
    pub head_block_hash: [u8; 32],
    pub safe_block_hash: [u8; 32],
    pub finalized_block_hash: [u8; 32],
}

/// RLP payload of a version 1 record: its fields in declaration order.
#[verifier::opaque]
pub open spec fn v1_payload(m: PositionV1Model) -> Seq<u8> {
    rlp_uint(m.version as nat) + rlp_bytes32(m.state_root@) + rlp_uint(m.next_block_number as nat)
        + rlp_uint(m.starting_block_number as nat) + rlp_uint(m.latest_block_number as nat)
}

/// RLP encoding of a version 1 record.
#[verifier::opaque]
pub open spec fn v1_encoding(m: PositionV1Model) -> Seq<u8> {
    rlp_list_header(v1_payload(m).len()) + v1_payload(m)
}

/// RLP payload of a version 2 record: its fields in declaration order.
#[verifier::opaque]
pub open spec fn v2_payload(m: PositionModel) -> Seq<u8> {
    rlp_uint(m.version as nat) + rlp_bytes32(m.state_root@) + rlp_uint(m.next_block_number as nat)
        + rlp_uint(m.starting_block_number as nat) + rlp_uint(m.latest_block_number as nat)
        + rlp_bytes32(m.head_block_hash@) + rlp_bytes32(m.safe_block_hash@) + rlp_bytes32(
        m.finalized_block_hash@,
    )
}

/// RLP encoding of a version 2 record.
#[verifier::opaque]
pub open spec fn v2_encoding(m: PositionModel) -> Seq<u8> {
    rlp_list_header(v2_payload(m).len()) + v2_payload(m)
}

/// The position of a fresh database.
pub open spec fn default_position() -> PositionModel {
    PositionModel {
        version: 2,
        state_root: EMPTY_ROOT_HASH,
        next_block_number: 0,
        starting_block_number: 0,
        latest_block_number: 0,
        head_block_hash: ZERO_HASH,
        safe_block_hash: ZERO_HASH,
        finalized_block_hash: ZERO_HASH,
    }
}

/// A version 1 record read as a version 2 position.
pub open spec fn upgraded(m: PositionV1Model) -> PositionModel {
    PositionModel {
        version: 2,
        state_root: m.state_root,
        next_block_number: m.next_block_number,
        starting_block_number: m.starting_block_number,
        latest_block_number: m.latest_block_number,
        head_block_hash: ZERO_HASH,
        safe_block_hash: ZERO_HASH,
        finalized_block_hash: ZERO_HASH,
    }
}

/// Upgrading a version 1 position keeps where execution stands: the same
/// next, starting and latest block numbers and the same state root, under
/// version 2 and with zero fork-choice hashes.
pub proof fn lemma_upgrade_keeps_position(m1: PositionV1Model)
    ensures
        upgraded(m1).version == 2,
        upgraded(m1).state_root == m1.state_root,
        upgraded(m1).next_block_number == m1.next_block_number,
        upgraded(m1).starting_block_number == m1.starting_block_number,
        upgraded(m1).latest_block_number == m1.latest_block_number,
        upgraded(m1).head_block_hash == ZERO_HASH,
        upgraded(m1).safe_block_hash == ZERO_HASH,
        upgraded(m1).finalized_block_hash == ZERO_HASH,
{
}

/// The encoding of field `i` of a version 2 record.
#[verifier::opaque]
spec fn v2_field(m: PositionModel, i: int) -> Seq<u8> {
    if i == 0 {
        rlp_uint(m.version as nat)
    } else if i == 1 {
        rlp_bytes32(m.state_root@)
    } else if i == 2 {
        rlp_uint(m.next_block_number as nat)
    } else if i == 3 {
        rlp_uint(m.starting_block_number as nat)
    } else if i == 4 {
        rlp_uint(m.latest_block_number as nat)
    } else if i == 5 {
        rlp_bytes32(m.head_block_hash@)
    } else if i == 6 {
        rlp_bytes32(m.safe_block_hash@)
    } else {
        rlp_bytes32(m.finalized_block_hash@)
    }
}

/// The fields of a version 2 record from field `i` on, followed by `tail`.
#[verifier::opaque]
spec fn v2_rest(m: PositionModel, tail: Seq<u8>, i: int) -> Seq<u8>
    decreases 8 - i,
{
    if i >= 8 {
        tail
    } else {
        v2_field(m, i) + v2_rest(m, tail, i + 1)
    }
}

/// The encoding of field `i` of a version 1 record.
#[verifier::opaque]
spec fn v1_field(m: PositionV1Model, i: int) -> Seq<u8> {
    if i == 0 {
        rlp_uint(m.version as nat)
    } else if i == 1 {
        rlp_bytes32(m.state_root@)
    } else if i == 2 {
        rlp_uint(m.next_block_number as nat)
    } else if i == 3 {
        rlp_uint(m.starting_block_number as nat)
    } else {
        rlp_uint(m.latest_block_number as nat)
    }
}

/// The fields of a version 1 record from field `i` on, followed by `tail`.
#[verifier::opaque]
spec fn v1_rest(m: PositionV1Model, tail: Seq<u8>, i: int) -> Seq<u8>
    decreases 5 - i,
{
    if i >= 5 {
        tail
    } else {
        v1_field(m, i) + v1_rest(m, tail, i + 1)
    }
}

/// What follows a version 2 record at the start of `buf`.
spec fn v2_tail(buf: Seq<u8>, m: PositionModel) -> Seq<u8> {
    buf.skip(v2_encoding(m).len() as int)
}

/// What follows a version 1 record at the start of `buf`.
spec fn v1_tail(buf: Seq<u8>, m: PositionV1Model) -> Seq<u8> {
    buf.skip(v1_encoding(m).len() as int)
}

/// One field of a version 2 record followed by the later ones.
proof fn lemma_v2_unfold(m: PositionModel, t: Seq<u8>, i: int)
    requires
        0 <= i < 8,
    ensures
        v2_rest(m, t, i) == v2_field(m, i) + v2_rest(m, t, i + 1),
        v2_field(m, 0) == rlp_uint(m.version as nat),
        v2_field(m, 1) == rlp_bytes32(m.state_root@),
        v2_field(m, 2) == rlp_uint(m.next_block_number as nat),
        v2_field(m, 3) == rlp_uint(m.starting_block_number as nat),
        v2_field(m, 4) == rlp_uint(m.latest_block_number as nat),
        v2_field(m, 5) == rlp_bytes32(m.head_block_hash@),
        v2_field(m, 6) == rlp_bytes32(m.safe_block_hash@),
        v2_field(m, 7) == rlp_bytes32(m.finalized_block_hash@),
{
    reveal(v2_field);
    reveal(v2_rest);
}

/// One field of a version 1 record followed by the later ones.
proof fn lemma_v1_unfold(m: PositionV1Model, t: Seq<u8>, i: int)
    requires
        0 <= i < 5,
    ensures
        v1_rest(m, t, i) == v1_field(m, i) + v1_rest(m, t, i + 1),
        v1_field(m, 0) == rlp_uint(m.version as nat),
        v1_field(m, 1) == rlp_bytes32(m.state_root@),
        v1_field(m, 2) == rlp_uint(m.next_block_number as nat),
        v1_field(m, 3) == rlp_uint(m.starting_block_number as nat),
        v1_field(m, 4) == rlp_uint(m.latest_block_number as nat),
{
    reveal(v1_field);
    reveal(v1_rest);
}

/// The integer held by field `k` of a version 2 record.
spec fn v2_uint_at(m: PositionModel, k: int) -> u64 {
    if k == 0 {
        m.version
    } else if k == 2 {
        m.next_block_number
    } else if k == 3 {
        m.starting_block_number
    } else {
        m.latest_block_number
    }
}

/// The hash held by field `k` of a version 2 record.
spec fn v2_hash_at(m: PositionModel, k: int) -> [u8; 32] {
    if k == 1 {
        m.state_root
    } else if k == 5 {
        m.head_block_hash
    } else if k == 6 {
        m.safe_block_hash
    } else {
        m.finalized_block_hash
    }
}

/// The integer held by field `k` of a version 1 record.
spec fn v1_uint_at(m: PositionV1Model, k: int) -> u64 {
    if k == 2 {
        m.next_block_number
    } else if k == 3 {
        m.starting_block_number
    } else {
        m.latest_block_number
    }
}

/// The hash held by field `k` of a version 1 record.
spec fn v1_hash_at(m: PositionV1Model, k: int) -> [u8; 32] {
    m.state_root
}

/// The version held by field `k` (the first) of a version 1 record.
spec fn v1_version_at(m: PositionV1Model, k: int) -> u8 {
    m.version
}

/// Reads integer field `k` of a version 2 record from the front of `r`,
/// where `r` holds the record's fields from `k` on.
fn v2_read_u64<'a>(Ghost(buf): Ghost<Seq<u8>>, r: &'a [u8], Ghost(k): Ghost<int>) -> (res: Result<
    (u64, &'a [u8]),
    ExecutionPositionError,
>)
    requires
        k == 0 || k == 2 || k == 3 || k == 4,
        forall|m: PositionModel| #[trigger]
            starts_with(buf, v2_encoding(m)) ==> r@ == v2_rest(m, v2_tail(buf, m), k),
    ensures
        res is Err ==> res->Err_0 == ExecutionPositionError::Record && forall|m: PositionModel|
            !#[trigger] starts_with(buf, v2_encoding(m)),
        res is Ok ==> r@ == rlp_uint(res->Ok_0.0 as nat) + res->Ok_0.1@,
        res is Ok ==> forall|m: PositionModel| #[trigger]
            starts_with(buf, v2_encoding(m)) ==> res->Ok_0.0 == v2_uint_at(m, k) && res->Ok_0.1@
                == v2_rest(m, v2_tail(buf, m), k + 1),
{
    proof {
        assert forall|m: PositionModel| #[trigger] starts_with(buf, v2_encoding(m)) implies starts_with(
            r@,
            rlp_uint(v2_uint_at(m, k) as nat),
        ) && r@.skip(rlp_uint(v2_uint_at(m, k) as nat).len() as int) == v2_rest(
            m,
            v2_tail(buf, m),
            k + 1,
        ) by {
            let t = v2_tail(buf, m);
            lemma_v2_unfold(m, t, k);
            lemma_prefix_split(rlp_uint(v2_uint_at(m, k) as nat), v2_rest(m, t, k + 1));
        }
    }
    match rlp_decode_u64(r) {
        Ok(v) => Ok(v),
        Err(_) => Err(ExecutionPositionError::Record),
    }
}

/// Reads hash field `k` of a version 2 record from the front of `r`, where
/// `r` holds the record's fields from `k` on.
fn v2_read_hash<'a>(Ghost(buf): Ghost<Seq<u8>>, r: &'a [u8], Ghost(k): Ghost<int>) -> (res: Result<
    ([u8; 32], &'a [u8]),
    ExecutionPositionError,
>)
    requires
        k == 1 || k == 5 || k == 6 || k == 7,
        forall|m: PositionModel| #[trigger]
            starts_with(buf, v2_encoding(m)) ==> r@ == v2_rest(m, v2_tail(buf, m), k),
    ensures
        res is Err ==> res->Err_0 == ExecutionPositionError::Record && forall|m: PositionModel|
            !#[trigger] starts_with(buf, v2_encoding(m)),
        res is Ok ==> r@ == rlp_bytes32(res->Ok_0.0@) + res->Ok_0.1@,
        res is Ok ==> forall|m: PositionModel| #[trigger]
            starts_with(buf, v2_encoding(m)) ==> res->Ok_0.0 == v2_hash_at(m, k) && res->Ok_0.1@
                == v2_rest(m, v2_tail(buf, m), k + 1),
{
    proof {
        assert forall|m: PositionModel| #[trigger] starts_with(buf, v2_encoding(m)) implies r@.len() >= 33
            && r@[0] == 0xa0 && r@.subrange(1, 33) == v2_hash_at(m, k)@ && r@.skip(33) == v2_rest(
            m,
            v2_tail(buf, m),
            k + 1,
        ) by {
            let t = v2_tail(buf, m);
            let h = v2_hash_at(m, k);
            lemma_v2_unfold(m, t, k);
            assert(r@ == rlp_bytes32(h@) + v2_rest(m, t, k + 1));
            assert(r@.subrange(1, 33) =~= h@);
            assert(r@.skip(33) =~= v2_rest(m, t, k + 1));
        }
    }
    match rlp_decode_bytes32(r) {
        Ok(v) => {
            proof {
                assert forall|m: PositionModel| #[trigger] starts_with(buf, v2_encoding(m)) implies v.0
                    == v2_hash_at(m, k) by {
                    lemma_hash_eq(v.0, v2_hash_at(m, k));
                }
            }
            Ok(v)
        },
        Err(_) => Err(ExecutionPositionError::Record),
    }
}

/// Reads integer field `k` of a version 1 record from the front of `r`,
/// where `r` holds the record's fields from `k` on.
fn v1_read_u64<'a>(Ghost(buf): Ghost<Seq<u8>>, r: &'a [u8], Ghost(k): Ghost<int>) -> (res: Result<
    (u64, &'a [u8]),
    ExecutionPositionError,
>)
    requires
        k == 2 || k == 3 || k == 4,
        forall|m: PositionV1Model| #[trigger]
            starts_with(buf, v1_encoding(m)) ==> r@ == v1_rest(m, v1_tail(buf, m), k),
    ensures
        res is Err ==> res->Err_0 == ExecutionPositionError::Record && forall|m: PositionV1Model|
            !#[trigger] starts_with(buf, v1_encoding(m)),
        res is Ok ==> r@ == rlp_uint(res->Ok_0.0 as nat) + res->Ok_0.1@,
        res is Ok ==> forall|m: PositionV1Model| #[trigger]
            starts_with(buf, v1_encoding(m)) ==> res->Ok_0.0 == v1_uint_at(m, k) && res->Ok_0.1@
                == v1_rest(m, v1_tail(buf, m), k + 1),
{
    proof {
        assert forall|m: PositionV1Model| #[trigger] starts_with(buf, v1_encoding(m)) implies starts_with(
            r@,
            rlp_uint(v1_uint_at(m, k) as nat),
        ) && r@.skip(rlp_uint(v1_uint_at(m, k) as nat).len() as int) == v1_rest(
            m,
            v1_tail(buf, m),
            k + 1,
        ) by {
            let t = v1_tail(buf, m);
            lemma_v1_unfold(m, t, k);
            lemma_prefix_split(rlp_uint(v1_uint_at(m, k) as nat), v1_rest(m, t, k + 1));
        }
    }
    match rlp_decode_u64(r) {
        Ok(v) => Ok(v),
        Err(_) => Err(ExecutionPositionError::Record),
    }
}

/// Reads hash field `k` of a version 1 record from the front of `r`, where
/// `r` holds the record's fields from `k` on.
fn v1_read_hash<'a>(Ghost(buf): Ghost<Seq<u8>>, r: &'a [u8], Ghost(k): Ghost<int>) -> (res: Result<
    ([u8; 32], &'a [u8]),
    ExecutionPositionError,
>)
    requires
        k == 1,
        forall|m: PositionV1Model| #[trigger]
            starts_with(buf, v1_encoding(m)) ==> r@ == v1_rest(m, v1_tail(buf, m), k),
    ensures
        res is Err ==> res->Err_0 == ExecutionPositionError::Record && forall|m: PositionV1Model|
            !#[trigger] starts_with(buf, v1_encoding(m)),
        res is Ok ==> r@ == rlp_bytes32(res->Ok_0.0@) + res->Ok_0.1@,
        res is Ok ==> forall|m: PositionV1Model| #[trigger]
            starts_with(buf, v1_encoding(m)) ==> res->Ok_0.0 == v1_hash_at(m, k) && res->Ok_0.1@
                == v1_rest(m, v1_tail(buf, m), k + 1),
{
    proof {
        assert forall|m: PositionV1Model| #[trigger] starts_with(buf, v1_encoding(m)) implies r@.len() >= 33
            && r@[0] == 0xa0 && r@.subrange(1, 33) == v1_hash_at(m, k)@ && r@.skip(33) == v1_rest(
            m,
            v1_tail(buf, m),
            k + 1,
        ) by {
            let t = v1_tail(buf, m);
            let h = v1_hash_at(m, k);
            lemma_v1_unfold(m, t, k);
            assert(r@ == rlp_bytes32(h@) + v1_rest(m, t, k + 1));
            assert(r@.subrange(1, 33) =~= h@);
            assert(r@.skip(33) =~= v1_rest(m, t, k + 1));
        }
    }
    match rlp_decode_bytes32(r) {
        Ok(v) => {
            proof {
                assert forall|m: PositionV1Model| #[trigger] starts_with(buf, v1_encoding(m)) implies v.0
                    == v1_hash_at(m, k) by {
                    lemma_hash_eq(v.0, v1_hash_at(m, k));
                }
            }
            Ok(v)
        },
        Err(_) => Err(ExecutionPositionError::Record),
    }
}

/// Reads integer field `k` of a version 1 record from the front of `r`,
/// where `r` holds the record's fields from `k` on.
fn v1_read_u8<'a>(Ghost(buf): Ghost<Seq<u8>>, r: &'a [u8], Ghost(k): Ghost<int>) -> (res: Result<
    (u8, &'a [u8]),
    ExecutionPositionError,
>)
    requires
        k == 0,
        forall|m: PositionV1Model| #[trigger]
            starts_with(buf, v1_encoding(m)) ==> r@ == v1_rest(m, v1_tail(buf, m), k),
    ensures
        res is Err ==> res->Err_0 == ExecutionPositionError::Record && forall|m: PositionV1Model|
            !#[trigger] starts_with(buf, v1_encoding(m)),
        res is Ok ==> r@ == rlp_uint(res->Ok_0.0 as nat) + res->Ok_0.1@,
        res is Ok ==> forall|m: PositionV1Model| #[trigger]
            starts_with(buf, v1_encoding(m)) ==> res->Ok_0.0 == v1_version_at(m, k) && res->Ok_0.1@
                == v1_rest(m, v1_tail(buf, m), k + 1),
{
    proof {
        assert forall|m: PositionV1Model| #[trigger] starts_with(buf, v1_encoding(m)) implies starts_with(
            r@,
            rlp_uint(v1_version_at(m, k) as nat),
        ) && r@.skip(rlp_uint(v1_version_at(m, k) as nat).len() as int) == v1_rest(
            m,
            v1_tail(buf, m),
            k + 1,
        ) by {
            let t = v1_tail(buf, m);
            lemma_v1_unfold(m, t, k);
            lemma_prefix_split(rlp_uint(v1_version_at(m, k) as nat), v1_rest(m, t, k + 1));
        }
    }
    match rlp_decode_u8(r) {
        Ok(v) => Ok(v),
        Err(_) => Err(ExecutionPositionError::Record),
    }
}

/// The version 1 fields end where the record ends.
proof fn lemma_v1_rest_end(m: PositionV1Model, t: Seq<u8>)
    ensures
        v1_rest(m, t, 5) == t,
{
    reveal(v1_rest);
}

/// Bytes made of a list header and the encoded version 1 fields, whose
/// lengths add up to the header's payload length, start with the record.
proof fn lemma_v1_decoded(buf: Seq<u8>, r0: Seq<u8>, r1: Seq<u8>, r2: Seq<u8>, r3: Seq<u8>, r4: Seq<u8>, r5: Seq<u8>, m: PositionV1Model, n: nat)
    requires
        buf == rlp_list_header(n) + r0,
        r0 == rlp_uint(m.version as nat) + r1,
        r1 == rlp_bytes32(m.state_root@) + r2,
        r2 == rlp_uint(m.next_block_number as nat) + r3,
        r3 == rlp_uint(m.starting_block_number as nat) + r4,
        r4 == rlp_uint(m.latest_block_number as nat) + r5,
        r0.len() - r5.len() == n,
    ensures
        starts_with(buf, v1_encoding(m)),
{
    reveal(v1_encoding);
    reveal(v1_payload);
    let acc0 = rlp_uint(m.version as nat);
    lemma_concat_assoc(acc0, rlp_bytes32(m.state_root@), r2);
    let acc1 = acc0 + rlp_bytes32(m.state_root@);
    lemma_concat_assoc(acc1, rlp_uint(m.next_block_number as nat), r3);
    let acc2 = acc1 + rlp_uint(m.next_block_number as nat);
    lemma_concat_assoc(acc2, rlp_uint(m.starting_block_number as nat), r4);
    let acc3 = acc2 + rlp_uint(m.starting_block_number as nat);
    lemma_concat_assoc(acc3, rlp_uint(m.latest_block_number as nat), r5);
    let acc4 = acc3 + rlp_uint(m.latest_block_number as nat);
    assert(r0 == v1_payload(m) + r5);
    lemma_concat_assoc(rlp_list_header(n), v1_payload(m), r5);
    lemma_prefix_split(v1_encoding(m), r5);
}

/// The version 2 fields end where the record ends.
proof fn lemma_v2_rest_end(m: PositionModel, t: Seq<u8>)
    ensures
        v2_rest(m, t, 8) == t,
{
    reveal(v2_rest);
}

/// Bytes made of a list header and the encoded version 2 fields, whose
/// lengths add up to the header's payload length, start with the record.
proof fn lemma_v2_decoded(buf: Seq<u8>, r0: Seq<u8>, r1: Seq<u8>, r2: Seq<u8>, r3: Seq<u8>, r4: Seq<u8>, r5: Seq<u8>, r6: Seq<u8>, r7: Seq<u8>, r8: Seq<u8>, m: PositionModel, n: nat)
    requires
        buf == rlp_list_header(n) + r0,
        r0 == rlp_uint(m.version as nat) + r1,
        r1 == rlp_bytes32(m.state_root@) + r2,
        r2 == rlp_uint(m.next_block_number as nat) + r3,
        r3 == rlp_uint(m.starting_block_number as nat) + r4,
        r4 == rlp_uint(m.latest_block_number as nat) + r5,
        r5 == rlp_bytes32(m.head_block_hash@) + r6,
        r6 == rlp_bytes32(m.safe_block_hash@) + r7,
        r7 == rlp_bytes32(m.finalized_block_hash@) + r8,
        r0.len() - r8.len() == n,
    ensures
        starts_with(buf, v2_encoding(m)),
{
    reveal(v2_encoding);
    reveal(v2_payload);
    let acc0 = rlp_uint(m.version as nat);
    lemma_concat_assoc(acc0, rlp_bytes32(m.state_root@), r2);
    let acc1 = acc0 + rlp_bytes32(m.state_root@);
    lemma_concat_assoc(acc1, rlp_uint(m.next_block_number as nat), r3);
    let acc2 = acc1 + rlp_uint(m.next_block_number as nat);
    lemma_concat_assoc(acc2, rlp_uint(m.starting_block_number as nat), r4);
    let acc3 = acc2 + rlp_uint(m.starting_block_number as nat);
    lemma_concat_assoc(acc3, rlp_uint(m.latest_block_number as nat), r5);
    let acc4 = acc3 + rlp_uint(m.latest_block_number as nat);
    lemma_concat_assoc(acc4, rlp_bytes32(m.head_block_hash@), r6);
    let acc5 = acc4 + rlp_bytes32(m.head_block_hash@);
    lemma_concat_assoc(acc5, rlp_bytes32(m.safe_block_hash@), r7);
    let acc6 = acc5 + rlp_bytes32(m.safe_block_hash@);
    lemma_concat_assoc(acc6, rlp_bytes32(m.finalized_block_hash@), r8);
    let acc7 = acc6 + rlp_bytes32(m.finalized_block_hash@);
    assert(r0 == v2_payload(m) + r8);
    lemma_concat_assoc(rlp_list_header(n), v2_payload(m), r8);
    lemma_prefix_split(v2_encoding(m), r8);
}

/// Concatenation is associative.
proof fn lemma_concat_assoc(a: Seq<u8>, b: Seq<u8>, c: Seq<u8>)
    ensures
        (a + b) + c == a + (b + c),
{
    assert((a + b) + c =~= a + (b + c));
}

/// `a` followed by `b` starts with `a`, and what follows `a` is `b`.
proof fn lemma_prefix_split(a: Seq<u8>, b: Seq<u8>)
    ensures
        starts_with(a + b, a),
        (a + b).skip(a.len() as int) =~= b,
{
    assert((a + b).take(a.len() as int) =~= a);
}

/// Two 32-byte arrays with equal contents are equal.
proof fn lemma_hash_eq(a: [u8; 32], b: [u8; 32])
    requires
        a@ == b@,
    ensures
        a == b,
{
    assert forall|i: int| 0 <= i < 32 implies a[i] == b[i] by {
        assert(a@[i] == b@[i]);
    }
    assert(a =~= b);
}

/// A buffer that starts with a version 2 record is its list header followed by
/// the fields and the remaining bytes.
proof fn lemma_v2_layout(buf: Seq<u8>, m: PositionModel)
    requires
        starts_with(buf, v2_encoding(m)),
    ensures
        starts_with(buf, rlp_list_header(v2_payload(m).len())),
        buf.len() - rlp_list_header(v2_payload(m).len()).len() >= v2_payload(m).len(),
        buf.skip(rlp_list_header(v2_payload(m).len()).len() as int) == v2_rest(
            m,
            v2_tail(buf, m),
            0,
        ),
        buf.skip(rlp_list_header(v2_payload(m).len()).len() as int) == v2_payload(m) + v2_tail(
            buf,
            m,
        ),
{
    reveal(v2_encoding);
    reveal(v2_payload);
    let h = rlp_list_header(v2_payload(m).len());
    let p = v2_payload(m);
    let t = v2_tail(buf, m);
    let e = v2_encoding(m);
    assert(buf =~= buf.take(e.len() as int) + t);
    lemma_concat_assoc(h, p, t);
    lemma_prefix_split(h, p + t);
    lemma_v2_unfold(m, t, 0);
    lemma_v2_unfold(m, t, 1);
    lemma_v2_unfold(m, t, 2);
    lemma_v2_unfold(m, t, 3);
    lemma_v2_unfold(m, t, 4);
    lemma_v2_unfold(m, t, 5);
    lemma_v2_unfold(m, t, 6);
    lemma_v2_unfold(m, t, 7);
    lemma_v2_rest_end(m, t);
    let acc0 = rlp_uint(m.version as nat);
    lemma_concat_assoc(acc0, rlp_bytes32(m.state_root@), v2_rest(m, t, 2));
    let acc1 = acc0 + rlp_bytes32(m.state_root@);
    lemma_concat_assoc(acc1, rlp_uint(m.next_block_number as nat), v2_rest(m, t, 3));
    let acc2 = acc1 + rlp_uint(m.next_block_number as nat);
    lemma_concat_assoc(acc2, rlp_uint(m.starting_block_number as nat), v2_rest(m, t, 4));
    let acc3 = acc2 + rlp_uint(m.starting_block_number as nat);
    lemma_concat_assoc(acc3, rlp_uint(m.latest_block_number as nat), v2_rest(m, t, 5));
    let acc4 = acc3 + rlp_uint(m.latest_block_number as nat);
    lemma_concat_assoc(acc4, rlp_bytes32(m.head_block_hash@), v2_rest(m, t, 6));
    let acc5 = acc4 + rlp_bytes32(m.head_block_hash@);
    lemma_concat_assoc(acc5, rlp_bytes32(m.safe_block_hash@), v2_rest(m, t, 7));
    let acc6 = acc5 + rlp_bytes32(m.safe_block_hash@);
    lemma_concat_assoc(acc6, rlp_bytes32(m.finalized_block_hash@), v2_rest(m, t, 8));
    let acc7 = acc6 + rlp_bytes32(m.finalized_block_hash@);
    assert(v2_rest(m, t, 0) == p + t);
}

/// A buffer that starts with a version 1 record is its list header followed by
/// the fields and the remaining bytes.
proof fn lemma_v1_layout(buf: Seq<u8>, m: PositionV1Model)
    requires
        starts_with(buf, v1_encoding(m)),
    ensures
        starts_with(buf, rlp_list_header(v1_payload(m).len())),
        buf.len() - rlp_list_header(v1_payload(m).len()).len() >= v1_payload(m).len(),
        buf.skip(rlp_list_header(v1_payload(m).len()).len() as int) == v1_rest(
            m,
            v1_tail(buf, m),
            0,
        ),
        buf.skip(rlp_list_header(v1_payload(m).len()).len() as int) == v1_payload(m) + v1_tail(
            buf,
            m,
        ),
{
    reveal(v1_encoding);
    reveal(v1_payload);
    let h = rlp_list_header(v1_payload(m).len());
    let p = v1_payload(m);
    let t = v1_tail(buf, m);
    let e = v1_encoding(m);
    assert(buf =~= buf.take(e.len() as int) + t);
    lemma_concat_assoc(h, p, t);
    lemma_prefix_split(h, p + t);
    lemma_v1_unfold(m, t, 0);
    lemma_v1_unfold(m, t, 1);
    lemma_v1_unfold(m, t, 2);
    lemma_v1_unfold(m, t, 3);
    lemma_v1_unfold(m, t, 4);
    lemma_v1_rest_end(m, t);
    let acc0 = rlp_uint(m.version as nat);
    lemma_concat_assoc(acc0, rlp_bytes32(m.state_root@), v1_rest(m, t, 2));
    let acc1 = acc0 + rlp_bytes32(m.state_root@);
    lemma_concat_assoc(acc1, rlp_uint(m.next_block_number as nat), v1_rest(m, t, 3));
    let acc2 = acc1 + rlp_uint(m.next_block_number as nat);
    lemma_concat_assoc(acc2, rlp_uint(m.starting_block_number as nat), v1_rest(m, t, 4));
    let acc3 = acc2 + rlp_uint(m.starting_block_number as nat);
    lemma_concat_assoc(acc3, rlp_uint(m.latest_block_number as nat), v1_rest(m, t, 5));
    let acc4 = acc3 + rlp_uint(m.latest_block_number as nat);
    assert(v1_rest(m, t, 0) == p + t);
}

/// The version held in a version field whose payload is `n` bytes long and
/// starts `field`: a one-byte payload is the version itself, an eight-byte
/// payload is read as a little-endian integer; `None` for other lengths.
pub open spec fn field_version(n: nat, field: Seq<u8>) -> Option<u64> {
    if n == 1 {
        Some(field[0] as u64)
    } else if n == 8 {
        Some(spec_u64_from_le_bytes(field.subrange(0, 8)))
    } else {
        None
    }
}

/// Reads the version held in a version field whose payload is
/// `payload_length` bytes long and starts `field`: see `field_version`.
pub fn version_from_field(payload_length: usize, field: &[u8]) -> (v: Option<u64>)
    requires
        payload_length <= field@.len(),
    ensures
        v == field_version(payload_length as nat, field@),
{
    if payload_length == 1 {
        Some(field[0] as u64)
    } else if payload_length == 8 {
        let bytes = vstd::slice::slice_subrange(field, 0, 8);
        Some(vstd::bytes::u64_from_le_bytes(bytes))
    } else {
        None
    }
}

/// The version a stored record announces, as its second RLP header gives it:
/// a one-byte payload is the version itself, an eight-byte payload is read as a
/// little-endian integer. `None` for any other payload length, a record that
/// cannot be read at all.
pub open spec fn stored_version(raw: Seq<u8>) -> Option<Result<u64, HeaderFailure>> {
    match rlp_header_decoding(raw) {
        None => Some(Err(HeaderFailure::Position)),
        Some((_, _, r1)) => match rlp_header_decoding(r1) {
            None => Some(Err(HeaderFailure::Version)),
            Some((_, n, r2)) => match field_version(n, r2) {
                Some(v) => Some(Ok(v)),
                None => None,
            },
        },
    }
}

/// `res` is what reading the stored value `raw` gives: the default position
/// where nothing is stored; otherwise the record decoded by the version it
/// announces, a version 1 record being upgraded.
pub open spec fn read_from_store(
    raw: Option<Seq<u8>>,
    res: Result<ExecutionPositionV2, ExecutionPositionError>,
) -> bool {
    match raw {
        None => res is Ok && res->Ok_0@ == default_position(),
        Some(b) => {
            &&& match stored_version(b) {
                None => false,
                Some(Err(f)) => res is Err && header_failure_of(res->Err_0) == Some(f),
                Some(Ok(v)) => if v == 1 {
                    &&& res is Ok ==> exists|m1: PositionV1Model| #[trigger]
                        starts_with(b, v1_encoding(m1)) && res->Ok_0@ == upgraded(m1)
                    &&& res is Err ==> res->Err_0 == ExecutionPositionError::Record
                } else if v == 2 {
                    &&& res is Ok ==> starts_with(b, v2_encoding(res->Ok_0@))
                    &&& res is Err ==> res->Err_0 == ExecutionPositionError::Record
                } else {
                    res == Err::<ExecutionPositionV2, ExecutionPositionError>(
                        ExecutionPositionError::InvalidVersion(v),
                    )
                },
            }
            &&& forall|m: PositionModel|
                m.version == 2 && #[trigger] starts_with(b, v2_encoding(m)) ==> res is Ok
                    && res->Ok_0@ == m
            &&& forall|m1: PositionV1Model|
                m1.version == 1 && #[trigger] starts_with(b, v1_encoding(m1)) ==> res is Ok
                    && res->Ok_0@ == upgraded(m1)
        },
    }
}

/// What is written is what is read: a stored version 2 record reads back as
/// the position it encodes, whatever follows it in the stored value.
pub proof fn lemma_record_reads_back(
    m: PositionModel,
    trailing: Seq<u8>,
    res: Result<ExecutionPositionV2, ExecutionPositionError>,
)
    requires
        m.version == 2,
        read_from_store(Some(v2_encoding(m) + trailing), res),
    ensures
        res is Ok,
        res->Ok_0@ == m,
{
    let b = v2_encoding(m) + trailing;
    assert(b.take(v2_encoding(m).len() as int) =~= v2_encoding(m));
    assert(starts_with(b, v2_encoding(m)));
}

/// A stored version 1 record reads back as the version 2 position it is
/// upgraded to, whatever follows it in the stored value.
pub proof fn lemma_v1_record_reads_back_upgraded(
    m1: PositionV1Model,
    trailing: Seq<u8>,
    res: Result<ExecutionPositionV2, ExecutionPositionError>,
)
    requires
        m1.version == 1,
        read_from_store(Some(v1_encoding(m1) + trailing), res),
    ensures
        res is Ok,
        res->Ok_0@ == upgraded(m1),
{
    let b = v1_encoding(m1) + trailing;
    assert(b.take(v1_encoding(m1).len() as int) =~= v1_encoding(m1));
    assert(starts_with(b, v1_encoding(m1)));
}

/// A buffer holding a version 2 record with a one-byte version starts with the
/// list header, and the payload starts with the version byte.
proof fn lemma_v2_version_byte(buf: Seq<u8>, m: PositionModel)
    requires
        starts_with(buf, v2_encoding(m)),
        0 < m.version < 0x80,
    ensures
        starts_with(buf, rlp_list_header(v2_payload(m).len())),
        buf.len() - rlp_list_header(v2_payload(m).len()).len() >= v2_payload(m).len(),
        buf.skip(rlp_list_header(v2_payload(m).len()).len() as int).len() > 0,
        buf.skip(rlp_list_header(v2_payload(m).len()).len() as int)[0] == m.version,
{
    lemma_v2_layout(buf, m);
    lemma_v2_unfold(m, v2_tail(buf, m), 0);
}

/// A buffer holding a version 1 record with a one-byte version starts with the
/// list header, and the payload starts with the version byte.
proof fn lemma_v1_version_byte(buf: Seq<u8>, m: PositionV1Model)
    requires
        starts_with(buf, v1_encoding(m)),
        0 < m.version < 0x80,
    ensures
        starts_with(buf, rlp_list_header(v1_payload(m).len())),
        buf.len() - rlp_list_header(v1_payload(m).len()).len() >= v1_payload(m).len(),
        buf.skip(rlp_list_header(v1_payload(m).len()).len() as int).len() > 0,
        buf.skip(rlp_list_header(v1_payload(m).len()).len() as int)[0] == m.version,
{
    lemma_v1_layout(buf, m);
    lemma_v1_unfold(m, v1_tail(buf, m), 0);
}

/// Reads the version a stored record announces.
fn read_version(raw: &[u8]) -> (res: Option<Result<u64, ExecutionPositionError>>)
    ensures
        match stored_version(raw@) {
            None => res is None,
            Some(Ok(v)) => res == Some(Ok::<u64, ExecutionPositionError>(v)),
            Some(Err(f)) => res matches Some(Err(e)) && header_failure_of(e) == Some(f),
        },
        forall|m: PositionModel|
            m.version == 2 && #[trigger] starts_with(raw@, v2_encoding(m)) ==> res == Some(
                Ok::<u64, ExecutionPositionError>(2),
            ),
        forall|m: PositionV1Model|
            m.version == 1 && #[trigger] starts_with(raw@, v1_encoding(m)) ==> res == Some(
                Ok::<u64, ExecutionPositionError>(1),
            ),
{
    match rlp_decode_header(raw) {
        Err(e) => {
            proof {
                assert forall|m: PositionModel|
                    m.version == 2 && #[trigger] starts_with(raw@, v2_encoding(m)) implies false by {
                    lemma_v2_version_byte(raw@, m);
                }
                assert forall|m: PositionV1Model|
                    m.version == 1 && #[trigger] starts_with(raw@, v1_encoding(m)) implies false by {
                    lemma_v1_version_byte(raw@, m);
                }
            }
            Some(Err(ExecutionPositionError::PositionHeader(e)))
        },
        Ok((_, _, r1)) => {
            proof {
                assert forall|m: PositionModel|
                    m.version == 2 && #[trigger] starts_with(raw@, v2_encoding(m)) implies r1@.len()
                    > 0 && r1@[0] == 2 by {
                    lemma_v2_version_byte(raw@, m);
                }
                assert forall|m: PositionV1Model|
                    m.version == 1 && #[trigger] starts_with(raw@, v1_encoding(m)) implies r1@.len()
                    > 0 && r1@[0] == 1 by {
                    lemma_v1_version_byte(raw@, m);
                }
            }
            match rlp_decode_header(r1) {
                Err(e) => Some(Err(ExecutionPositionError::VersionHeader(e))),
                Ok((_, n, r2)) => {
                    match version_from_field(n, r2) {
                        Some(v) => Some(Ok(v)),
                        None => None,
                    }
                },
            }
        },
    }
}

/// Version 1 of the stored execution position.
#[derive(Clone, Debug, PartialEq, Eq)]
pub struct ExecutionPositionV1 {
    version: u8,
    state_root: [u8; 32],
    next_block_number: u64,
    starting_block_number: u64,
    latest_block_number: u64,
}

impl View for ExecutionPositionV1 {
    type V = PositionV1Model;

    closed spec fn view(&self) -> PositionV1Model {
        PositionV1Model {
            version: self.version,
            state_root: self.state_root,
            next_block_number: self.next_block_number,
            starting_block_number: self.starting_block_number,
            latest_block_number: self.latest_block_number,
        }
    }
}

/// The execution position: where block execution stands and the latest
/// fork-choice state.
#[derive(Clone, Debug, PartialEq, Eq)]
pub struct ExecutionPositionV2 {
    version: u64,
    state_root: [u8; 32],
    next_block_number: u64,
    starting_block_number: u64,
    latest_block_number: u64,
    head_block_hash: [u8; 32],
    safe_block_hash: [u8; 32],
    finalized_block_hash: [u8; 32],
}

impl View for ExecutionPositionV2 {
    type V = PositionModel;

    closed spec fn view(&self) -> PositionModel {
        PositionModel {
            version: self.version,
            state_root: self.state_root,
            next_block_number: self.next_block_number,
            starting_block_number: self.starting_block_number,
            latest_block_number: self.latest_block_number,
            head_block_hash: self.head_block_hash,
            safe_block_hash: self.safe_block_hash,
            finalized_block_hash: self.finalized_block_hash,
        }
    }
}

impl core::default::Default for ExecutionPositionV1 {
    fn default() -> (p: Self)
        ensures
            p@ == (PositionV1Model {
                version: 1,
                state_root: EMPTY_ROOT_HASH,
                next_block_number: 0,
                starting_block_number: 0,
                latest_block_number: 0,
            }),
    {
        ExecutionPositionV1 {
            version: 1,
            next_block_number: 0,
            state_root: EMPTY_ROOT_HASH,
            starting_block_number: 0,
            latest_block_number: 0,
        }
    }
}

impl core::default::Default for ExecutionPositionV2 {
    fn default() -> (p: Self)
        ensures
            p@ == default_position(),
    {
        ExecutionPositionV2 {
            version: 2,
            next_block_number: 0,
            state_root: EMPTY_ROOT_HASH,
            starting_block_number: 0,
            latest_block_number: 0,
            head_block_hash: ZERO_HASH,
            safe_block_hash: ZERO_HASH,
            finalized_block_hash: ZERO_HASH,
        }
    }
}

impl core::convert::From<ExecutionPositionV1> for ExecutionPositionV2 {
    /// A version 1 position as a version 2 one: same block numbers and state
    /// root, zero fork-choice hashes.
    fn from(execution_position_v1: ExecutionPositionV1) -> (p: Self)
        ensures
            p@ == upgraded(execution_position_v1@),
            p@.version == 2,
            p@.state_root == execution_position_v1@.state_root,
            p@.next_block_number == execution_position_v1@.next_block_number,
            p@.starting_block_number == execution_position_v1@.starting_block_number,
            p@.latest_block_number == execution_position_v1@.latest_block_number,
            p@.head_block_hash == ZERO_HASH,
            p@.safe_block_hash == ZERO_HASH,
            p@.finalized_block_hash == ZERO_HASH,
    {
        ExecutionPositionV2 {
            version: 2,
            state_root: execution_position_v1.state_root,
            next_block_number: execution_position_v1.next_block_number,
            starting_block_number: execution_position_v1.starting_block_number,
            latest_block_number: execution_position_v1.latest_block_number,
            head_block_hash: ZERO_HASH,
            safe_block_hash: ZERO_HASH,
            finalized_block_hash: ZERO_HASH,
        }
    }
}

impl vstd::std_specs::convert::FromSpecImpl<ExecutionPositionV1> for ExecutionPositionV2 {
    open spec fn obeys_from_spec() -> bool {
        true
    }

    closed spec fn from_spec(v: ExecutionPositionV1) -> Self {
        ExecutionPositionV2 {
            version: 2,
            state_root: v.state_root,
            next_block_number: v.next_block_number,
            starting_block_number: v.starting_block_number,
            latest_block_number: v.latest_block_number,
            head_block_hash: ZERO_HASH,
            safe_block_hash: ZERO_HASH,
            finalized_block_hash: ZERO_HASH,
        }
    }
}

impl ExecutionPositionV1 {
    /// The RLP record of this position.
    pub fn encode(&self) -> (out: Vec<u8>)
        ensures
            out@ == v1_encoding(self@),
    {
        let mut payload = rlp_encode_u8(self.version);
        let mut field = rlp_encode_bytes32(&self.state_root);
        payload.append(&mut field);
        let mut field = rlp_encode_u64(self.next_block_number);
        payload.append(&mut field);
        let mut field = rlp_encode_u64(self.starting_block_number);
        payload.append(&mut field);
        let mut field = rlp_encode_u64(self.latest_block_number);
        payload.append(&mut field);
        let mut out = rlp_encode_list_header(payload.len());
        proof {
            reveal(v1_encoding);
            reveal(v1_payload);
        }
        assert(payload@ =~= v1_payload(self@));
        out.append(&mut payload);
        out
    }

    /// Decodes a version 1 record from the start of `buf`; bytes after the
    /// record are left alone. Decoding is canonical: it succeeds exactly when
    /// `buf` starts with the encoding of some position, and yields that position.
    pub fn decode(buf: &[u8]) -> (res: Result<Self, ExecutionPositionError>)
        ensures
            res is Ok ==> starts_with(buf@, v1_encoding(res->Ok_0@)),
            forall|m: PositionV1Model| #[trigger]
                starts_with(buf@, v1_encoding(m)) ==> res is Ok && res->Ok_0@ == m,
            res is Err ==> res->Err_0 == ExecutionPositionError::Record,
    {
        let (list, payload_length, r0) = match rlp_decode_header(buf) {
            Ok(h) => h,
            Err(_) => {
                proof {
                    assert forall|m: PositionV1Model| starts_with(buf@, v1_encoding(m)) implies false by {
                        lemma_v1_layout(buf@, m);
                    }
                }
                return Err(ExecutionPositionError::Record);
            },
        };
        proof {
            assert forall|m: PositionV1Model| #[trigger] starts_with(buf@, v1_encoding(m)) implies list
                && payload_length == v1_payload(m).len() && r0@ == v1_rest(m, v1_tail(buf@, m), 0)
                && r0@ == v1_payload(m) + v1_tail(buf@, m) by {
                lemma_v1_layout(buf@, m);
            }
        }
        if !list {
            return Err(ExecutionPositionError::Record);
        }
        let started_len = r0.len();
        if started_len < payload_length {
            return Err(ExecutionPositionError::Record);
        }
        let (version, r1) = match v1_read_u8(Ghost(buf@), r0, Ghost(0)) {
            Ok(v) => v,
            Err(e) => {
                return Err(e);
            },
        };
        let (state_root, r2) = match v1_read_hash(Ghost(buf@), r1, Ghost(1)) {
            Ok(v) => v,
            Err(e) => {
                return Err(e);
            },
        };
        let (next_block_number, r3) = match v1_read_u64(Ghost(buf@), r2, Ghost(2)) {
            Ok(v) => v,
            Err(e) => {
                return Err(e);
            },
        };
        let (starting_block_number, r4) = match v1_read_u64(Ghost(buf@), r3, Ghost(3)) {
            Ok(v) => v,
            Err(e) => {
                return Err(e);
            },
        };
        let (latest_block_number, r5) = match v1_read_u64(Ghost(buf@), r4, Ghost(4)) {
            Ok(v) => v,
            Err(e) => {
                return Err(e);
            },
        };
        let consumed = started_len - r5.len();
        if consumed != payload_length {
            proof {
                assert forall|m: PositionV1Model| starts_with(buf@, v1_encoding(m)) implies false by {
                    lemma_v1_rest_end(m, v1_tail(buf@, m));
                }
            }
            return Err(ExecutionPositionError::Record);
        }
        let position = ExecutionPositionV1 {
            version,
            state_root,
            next_block_number,
            starting_block_number,
            latest_block_number,
        };
        proof {
            lemma_v1_decoded(buf@, r0@, r1@, r2@, r3@, r4@, r5@, position@, payload_length as nat);
            assert forall|m: PositionV1Model| #[trigger] starts_with(buf@, v1_encoding(m)) implies position@
                == m by {}
        }
        Ok(position)
    }
}

impl ExecutionPositionV2 {
    /// The RLP record of this position.
    pub fn encode(&self) -> (out: Vec<u8>)
        ensures
            out@ == v2_encoding(self@),
    {
        let mut payload = rlp_encode_u64(self.version);
        let mut field = rlp_encode_bytes32(&self.state_root);
        payload.append(&mut field);
        let mut field = rlp_encode_u64(self.next_block_number);
        payload.append(&mut field);
        let mut field = rlp_encode_u64(self.starting_block_number);
        payload.append(&mut field);
        let mut field = rlp_encode_u64(self.latest_block_number);
        payload.append(&mut field);
        let mut field = rlp_encode_bytes32(&self.head_block_hash);
        payload.append(&mut field);
        let mut field = rlp_encode_bytes32(&self.safe_block_hash);
        payload.append(&mut field);
        let mut field = rlp_encode_bytes32(&self.finalized_block_hash);
        payload.append(&mut field);
        let mut out = rlp_encode_list_header(payload.len());
        proof {
            reveal(v2_encoding);
            reveal(v2_payload);
        }
        assert(payload@ =~= v2_payload(self@));
        out.append(&mut payload);
        out
    }

    /// Reads a stored position. `raw` is the value stored under
    /// `EXECUTION_POSITION_DB_KEY`, `None` where nothing is stored yet. The
    /// stored record must announce a version field of one or eight bytes,
    /// which only the record's own RLP headers tell; a caller that has not
    /// read them calls `try_initialize_from_db_value`, which tests for it and
    /// answers `None` where no version can be read.
    pub fn initialize_from_db_value(raw: Option<&[u8]>) -> (res: Result<Self, ExecutionPositionError>)
        requires
            raw matches Some(b) ==> stored_version(b@) is Some,
        ensures
            read_from_store(
                match raw {
                    Some(b) => Some(b@),
                    None => None,
                },
                res,
            ),
    {
        match Self::try_initialize_from_db_value(raw) {
            Some(res) => res,
            None => {
                proof {
                    assert(false);
                }
                Err(ExecutionPositionError::Record)
            },
        }
    }

    /// Reads a stored position as `initialize_from_db_value` does, and gives
    /// `None` instead where the record's version field is neither one nor eight
    /// bytes long, a record from which no version can be read.
    pub fn try_initialize_from_db_value(raw: Option<&[u8]>) -> (res: Option<
        Result<Self, ExecutionPositionError>,
    >)
        ensures
            res is None <==> (raw matches Some(b) && stored_version(b@) is None),
            res matches Some(r) ==> read_from_store(
                match raw {
                    Some(b) => Some(b@),
                    None => None,
                },
                r,
            ),
            forall|m: PositionModel|
                #![trigger v2_encoding(m)]
                m.version == 2 && (raw matches Some(b) && starts_with(b@, v2_encoding(m)))
                    ==> res is Some && res->Some_0 is Ok && res->Some_0->Ok_0@ == m,
            forall|m1: PositionV1Model|
                #![trigger v1_encoding(m1)]
                m1.version == 1 && (raw matches Some(b) && starts_with(b@, v1_encoding(m1)))
                    ==> res is Some && res->Some_0 is Ok && res->Some_0->Ok_0@ == upgraded(m1),
    {
        match raw {
            None => Some(Ok(Self::default())),
            Some(b) => match read_version(b) {
                None => None,
                Some(Err(e)) => Some(Err(e)),
                Some(Ok(version)) => {
                    if version == 1 {
                        match ExecutionPositionV1::decode(b) {
                            Ok(v1) => Some(Ok(Self::from(v1))),
                            Err(e) => Some(Err(e)),
                        }
                    } else if version == 2 {
                        match Self::decode(b) {
                            Ok(p) => Some(Ok(p)),
                            Err(e) => Some(Err(e)),
                        }
                    } else {
                        Some(Err(ExecutionPositionError::InvalidVersion(version)))
                    }
                },
            },
        }
    }

    /// Version of the record format.
    pub fn version(&self) -> (v: u64)
        ensures
            v == self@.version,
    {
        self.version
    }

    /// First block number of the current sync, reported by `eth_syncing`.
    pub fn starting_block_number(&self) -> (n: u64)
        ensures
            n == self@.starting_block_number,
    {
        self.starting_block_number
    }

    /// The next block number to be executed.
    pub fn next_block_number(&self) -> (n: u64)
        ensures
            n == self@.next_block_number,
    {
        self.next_block_number
    }

    /// The last executed block number: one below the next, and zero before
    /// anything has been executed.
    pub fn previous_block_number(&self) -> (n: u64)
        ensures
            n == (if self@.next_block_number == 0 {
                0
            } else {
                self@.next_block_number - 1
            }),
    {
        self.next_block_number.saturating_sub(1)
    }

    /// The latest block number known to the consensus client.
    pub fn latest_block_number(&self) -> (n: u64)
        ensures
            n == self@.latest_block_number,
    {
        self.latest_block_number
    }

    /// Hash of the head block.
    pub fn head_block_hash(&self) -> (h: [u8; 32])
        ensures
            h == self@.head_block_hash,
    {
        self.head_block_hash
    }

    /// Hash of the safe block.
    pub fn safe_block_hash(&self) -> (h: [u8; 32])
        ensures
            h == self@.safe_block_hash,
    {
        self.safe_block_hash
    }

    /// Hash of the finalized block.
    pub fn finalized_block_hash(&self) -> (h: [u8; 32])
        ensures
            h == self@.finalized_block_hash,
    {
        self.finalized_block_hash
    }

    /// State root after the last executed block.
    pub fn state_root(&self) -> (h: [u8; 32])
        ensures
            h == self@.state_root,
    {
        self.state_root
    }

    /// Records that the block with number `block_number` and state root
    /// `state_root` has been executed, and returns the record to store under
    /// `EXECUTION_POSITION_DB_KEY`.
    pub fn update_position(&mut self, block_number: u64, state_root: [u8; 32]) -> (record: Vec<u8>)
        requires
            block_number < u64::MAX,
        ensures
            final(self)@ == (PositionModel {
                next_block_number: (block_number + 1) as u64,
                state_root,
                ..old(self)@
            }),
            record@ == v2_encoding(final(self)@),
    {
        self.next_block_number = block_number + 1;
        self.state_root = state_root;
        self.encode()
    }

    /// Records the fork-choice state given by the consensus client, and returns
    /// the record to store under `EXECUTION_POSITION_DB_KEY`.
    pub fn update_fork_choice_state(&mut self, fork_choice_state: ForkchoiceState) -> (record: Vec<u8>)
        ensures
            final(self)@ == (PositionModel {
                head_block_hash: fork_choice_state.head_block_hash,
                safe_block_hash: fork_choice_state.safe_block_hash,
                finalized_block_hash: fork_choice_state.finalized_block_hash,
                ..old(self)@
            }),
            record@ == v2_encoding(final(self)@),
    {
        let ForkchoiceState { head_block_hash, safe_block_hash, finalized_block_hash } =
            fork_choice_state;
        self.head_block_hash = head_block_hash;
        self.safe_block_hash = safe_block_hash;
        self.finalized_block_hash = finalized_block_hash;
        self.encode()
    }

    /// Records the latest block number known to the consensus client, and
    /// returns the record to store under `EXECUTION_POSITION_DB_KEY`.
    pub fn set_latest_block_number(&mut self, latest_block_number: u64) -> (record: Vec<u8>)
        ensures
            final(self)@ == (PositionModel { latest_block_number, ..old(self)@ }),
            record@ == v2_encoding(final(self)@),
    {
        self.latest_block_number = latest_block_number;
        self.encode()
    }

    /// The answer to `eth_syncing`: not syncing once the last executed block is
    /// the latest known one, otherwise the starting, current and highest block.
    pub fn sync_status(&self) -> (status: SyncStatus)
        ensures
            status == sync_status_of(self@),
    {
        let current_block = self.next_block_number.saturating_sub(1);
        if current_block == self.latest_block_number {
            return SyncStatus::NotSyncing;
        }
        SyncStatus::Syncing {
            starting_block: self.starting_block_number,
            current_block,
            highest_block: self.latest_block_number,
        }
    }

    /// Decodes a version 2 record from the start of `buf`; bytes after the
    /// record are left alone. Decoding is canonical: it succeeds exactly when
    /// `buf` starts with the encoding of some position, and yields that position.
    pub fn decode(buf: &[u8]) -> (res: Result<Self, ExecutionPositionError>)
        ensures
            res is Ok ==> starts_with(buf@, v2_encoding(res->Ok_0@)),
            forall|m: PositionModel| #[trigger]
                starts_with(buf@, v2_encoding(m)) ==> res is Ok && res->Ok_0@ == m,
            res is Err ==> res->Err_0 == ExecutionPositionError::Record,
    {
        let (list, payload_length, r0) = match rlp_decode_header(buf) {
            Ok(h) => h,
            Err(_) => {
                proof {
                    assert forall|m: PositionModel| starts_with(buf@, v2_encoding(m)) implies false by {
                        lemma_v2_layout(buf@, m);
                    }
                }
                return Err(ExecutionPositionError::Record);
            },
        };
        proof {
            assert forall|m: PositionModel| #[trigger] starts_with(buf@, v2_encoding(m)) implies list
                && payload_length == v2_payload(m).len() && r0@ == v2_rest(m, v2_tail(buf@, m), 0)
                && r0@ == v2_payload(m) + v2_tail(buf@, m) by {
                lemma_v2_layout(buf@, m);
            }
        }
        if !list {
            return Err(ExecutionPositionError::Record);
        }
        let started_len = r0.len();
        if started_len < payload_length {
            return Err(ExecutionPositionError::Record);
        }
        let (version, r1) = match v2_read_u64(Ghost(buf@), r0, Ghost(0)) {
            Ok(v) => v,
            Err(e) => {
                return Err(e);
            },
        };
        let (state_root, r2) = match v2_read_hash(Ghost(buf@), r1, Ghost(1)) {
            Ok(v) => v,
            Err(e) => {
                return Err(e);
            },
        };
        let (next_block_number, r3) = match v2_read_u64(Ghost(buf@), r2, Ghost(2)) {
            Ok(v) => v,
            Err(e) => {
                return Err(e);
            },
        };
        let (starting_block_number, r4) = match v2_read_u64(Ghost(buf@), r3, Ghost(3)) {
            Ok(v) => v,
            Err(e) => {
                return Err(e);
            },
        };
        let (latest_block_number, r5) = match v2_read_u64(Ghost(buf@), r4, Ghost(4)) {
            Ok(v) => v,
            Err(e) => {
                return Err(e);
            },
        };
        let (head_block_hash, r6) = match v2_read_hash(Ghost(buf@), r5, Ghost(5)) {
            Ok(v) => v,
            Err(e) => {
                return Err(e);
            },
        };
        let (safe_block_hash, r7) = match v2_read_hash(Ghost(buf@), r6, Ghost(6)) {
            Ok(v) => v,
            Err(e) => {
                return Err(e);
            },
        };
        let (finalized_block_hash, r8) = match v2_read_hash(Ghost(buf@), r7, Ghost(7)) {
            Ok(v) => v,
            Err(e) => {
                return Err(e);
            },
        };
        let consumed = started_len - r8.len();
        if consumed != payload_length {
            proof {
                assert forall|m: PositionModel| starts_with(buf@, v2_encoding(m)) implies false by {
                    lemma_v2_rest_end(m, v2_tail(buf@, m));
                }
            }
            return Err(ExecutionPositionError::Record);
        }
        let position = ExecutionPositionV2 {
            version,
            state_root,
            next_block_number,
            starting_block_number,
            latest_block_number,
            head_block_hash,
            safe_block_hash,
            finalized_block_hash,
        };
        proof {
            lemma_v2_decoded(buf@, r0@, r1@, r2@, r3@, r4@, r5@, r6@, r7@, r8@, position@, payload_length as nat);
            assert forall|m: PositionModel| #[trigger] starts_with(buf@, v2_encoding(m)) implies position@
                == m by {}
        }
        Ok(position)
    }
}

} // verus!
