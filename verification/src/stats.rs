//! Statistics over the state content that a full state walk would gossip:
//! how much goes over the wire, and how much the network stores once the
//! proofs are stripped.
use crate::execution_position::EMPTY_ROOT_HASH;
use crate::hash::same_hash;
use vstd::prelude::*;

verus! {

/// Keccak-256 hash of empty input: the code hash of an account without code.
pub const KECCAK_EMPTY: [u8; 32] = [
    0xc5u8, 0xd2u8, 0x46u8, 0x01u8, 0x86u8, 0xf7u8, 0x23u8, 0x3cu8, 0x92u8, 0x7eu8, 0x7du8, 0xb2u8,
    0xdcu8, 0xc7u8, 0x03u8, 0xc0u8, 0xe5u8, 0x00u8, 0xb6u8, 0x53u8, 0xcau8, 0x82u8, 0x27u8, 0x3bu8,
    0x7bu8, 0xfau8, 0xd8u8, 0x04u8, 0x5du8, 0x85u8, 0xa4u8, 0x70u8,
];

/// Bytes that the network stores with each content item besides its key and
/// value: the content id.
pub const CONTENT_ID_SIZE: usize = 32;

/// The kinds of state content values.
#[derive(Clone, Copy, Debug, PartialEq, Eq)]
pub enum StateContentKind {
    /// A trie node, as stored.
    TrieNode,
    /// Contract bytecode, as stored.
    ContractBytecode,
    /// An account trie node with its proof, as gossiped.
    AccountTrieNodeWithProof,
    /// A contract storage trie node with its proof, as gossiped.
    ContractStorageTrieNodeWithProof,
    /// Contract bytecode with its proof, as gossiped.
    ContractBytecodeWithProof,
}

/// Whether values of this kind carry a proof, as gossiped values do.
pub open spec fn carries_proof(kind: StateContentKind) -> bool {
    match kind {
        StateContentKind::AccountTrieNodeWithProof => true,
        StateContentKind::ContractStorageTrieNodeWithProof => true,
        StateContentKind::ContractBytecodeWithProof => true,
        _ => false,
    }
}

/// Abstract state of `Stats`.
pub struct StatsModel {
    pub content_count: nat,
    pub gossip_size: nat,
    pub storage_size: nat,
    pub account_trie_count: nat,
    pub contract_storage_trie_count: nat,
    pub contract_bytecode_count: nat,
}

/// Counts and sizes of the content checked so far.
#[derive(Debug)]
pub struct Stats {
    content_count: usize,
    gossip_size: usize,
    storage_size: usize,
    account_trie_count: usize,
    contract_storage_trie_count: usize,
    contract_bytecode_count: usize,
}

impl View for Stats {
    type V = StatsModel;

    closed spec fn view(&self) -> StatsModel {
        StatsModel {
            content_count: self.content_count as nat,
            gossip_size: self.gossip_size as nat,
            storage_size: self.storage_size as nat,
            account_trie_count: self.account_trie_count as nat,
            contract_storage_trie_count: self.contract_storage_trie_count as nat,
            contract_bytecode_count: self.contract_bytecode_count as nat,
        }
    }
}

/// The statistics after checking one gossiped content item of `kind`, whose
/// key encodes to `key_len` bytes, whose value encodes to `value_len` bytes
/// and to `stored_value_len` bytes once its proof is stripped.
pub open spec fn stats_after(
    s: StatsModel,
    kind: StateContentKind,
    key_len: nat,
    value_len: nat,
    stored_value_len: nat,
) -> StatsModel {
    StatsModel {
        content_count: s.content_count + 1,
        gossip_size: s.gossip_size + key_len + value_len,
        storage_size: s.storage_size + CONTENT_ID_SIZE as nat + key_len + stored_value_len,
        account_trie_count: s.account_trie_count + if kind == StateContentKind::AccountTrieNodeWithProof {
            1nat
        } else {
            0nat
        },
        contract_storage_trie_count: s.contract_storage_trie_count + if kind
            == StateContentKind::ContractStorageTrieNodeWithProof {
            1nat
        } else {
            0nat
        },
        contract_bytecode_count: s.contract_bytecode_count + if kind
            == StateContentKind::ContractBytecodeWithProof {
            1nat
        } else {
            0nat
        },
    }
}

/// The counters after `stats_after` still fit in a `usize`.
pub open spec fn stats_after_fits(
    s: StatsModel,
    kind: StateContentKind,
    key_len: nat,
    value_len: nat,
    stored_value_len: nat,
) -> bool {
    let n = stats_after(s, kind, key_len, value_len, stored_value_len);
    &&& n.content_count <= usize::MAX
    &&& n.gossip_size <= usize::MAX
    &&& n.storage_size <= usize::MAX
    &&& n.account_trie_count <= usize::MAX
    &&& n.contract_storage_trie_count <= usize::MAX
    &&& n.contract_bytecode_count <= usize::MAX
}

impl Default for Stats {
    fn default() -> (s: Self)
        ensures
            s@ == (StatsModel {
                content_count: 0,
                gossip_size: 0,
                storage_size: 0,
                account_trie_count: 0,
                contract_storage_trie_count: 0,
                contract_bytecode_count: 0,
            }),
    {
        Stats {
            content_count: 0,
            gossip_size: 0,
            storage_size: 0,
            account_trie_count: 0,
            contract_storage_trie_count: 0,
            contract_bytecode_count: 0,
        }
    }
}

impl Stats {
    /// Counts one gossiped content item: see `stats_after`. Only values that
    /// carry a proof are gossiped.
    pub fn check_content(
        &mut self,
        kind: StateContentKind,
        key_len: usize,
        value_len: usize,
        stored_value_len: usize,
    )
        requires
            carries_proof(kind),
            stats_after_fits(
                old(self)@,
                kind,
                key_len as nat,
                value_len as nat,
                stored_value_len as nat,
            ),
        ensures
            final(self)@ == stats_after(
                old(self)@,
                kind,
                key_len as nat,
                value_len as nat,
                stored_value_len as nat,
            ),
    {
        match kind {
            StateContentKind::AccountTrieNodeWithProof => {
                self.account_trie_count = self.account_trie_count + 1;
            },
            StateContentKind::ContractStorageTrieNodeWithProof => {
                self.contract_storage_trie_count = self.contract_storage_trie_count + 1;
            },
            _ => {
                self.contract_bytecode_count = self.contract_bytecode_count + 1;
            },
        }
        let gossip_size = key_len + value_len;
        let storage_size = CONTENT_ID_SIZE + key_len + stored_value_len;
        self.content_count = self.content_count + 1;
        self.gossip_size = self.gossip_size + gossip_size;
        self.storage_size = self.storage_size + storage_size;
    }

    /// Number of content items checked.
    pub fn content_count(&self) -> (n: usize)
        ensures
            n == self@.content_count,
    {
        self.content_count
    }

    /// Bytes gossiped: keys and values with their proofs.
    pub fn gossip_size(&self) -> (n: usize)
        ensures
            n == self@.gossip_size,
    {
        self.gossip_size
    }

    /// Bytes stored by the network: content ids, keys and values without
    /// their proofs.
    pub fn storage_size(&self) -> (n: usize)
        ensures
            n == self@.storage_size,
    {
        self.storage_size
    }

    /// Number of account trie nodes checked.
    pub fn account_trie_count(&self) -> (n: usize)
        ensures
            n == self@.account_trie_count,
    {
        self.account_trie_count
    }

    /// Number of contract storage trie nodes checked.
    pub fn contract_storage_trie_count(&self) -> (n: usize)
        ensures
            n == self@.contract_storage_trie_count,
    {
        self.contract_storage_trie_count
    }

    /// Number of contract bytecodes checked.
    pub fn contract_bytecode_count(&self) -> (n: usize)
        ensures
            n == self@.contract_bytecode_count,
    {
        self.contract_bytecode_count
    }
}

/// Every checked item is counted under exactly one kind: the three kind
/// counters always add up to the number of items.
pub proof fn lemma_stats_kinds_add_up(
    s: StatsModel,
    kind: StateContentKind,
    key_len: nat,
    value_len: nat,
    stored_value_len: nat,
)
    requires
        carries_proof(kind),
        s.account_trie_count + s.contract_storage_trie_count + s.contract_bytecode_count
            == s.content_count,
    ensures
        ({
            let n = stats_after(s, kind, key_len, value_len, stored_value_len);
            n.account_trie_count + n.contract_storage_trie_count + n.contract_bytecode_count
                == n.content_count
        }),
{
}

/// Why the statistics cannot be taken.
#[derive(Clone, Copy, Debug, PartialEq, Eq)]
pub enum StatsError {
    /// No block was executed yet.
    NotInitialized,
}

/// The block whose state the statistics are taken at, the last executed one,
/// given the next block to execute.
pub fn stats_block_number(next_block_number: u64) -> (res: Result<u64, StatsError>)
    ensures
        next_block_number > 0 ==> res == Ok::<u64, StatsError>((next_block_number - 1) as u64),
        next_block_number == 0 ==> res == Err::<u64, StatsError>(StatsError::NotInitialized),
{
    if next_block_number > 0 {
        Ok(next_block_number - 1)
    } else {
        Err(StatsError::NotInitialized)
    }
}

/// What else to check for an account leaf of the state trie.
#[derive(Clone, Copy, Debug, PartialEq, Eq)]
pub struct AccountChecks {
    /// The account has code: check its bytecode content.
    pub bytecode: bool,
    /// The account has storage: walk its storage trie.
    pub storage: bool,
}

/// What else to check for an account with `code_hash` and `storage_root`:
/// its bytecode unless its code is empty, its storage trie unless it is the
/// empty trie.
pub fn account_checks(code_hash: &[u8; 32], storage_root: &[u8; 32]) -> (c: AccountChecks)
    ensures
        c.bytecode == (*code_hash != KECCAK_EMPTY),
        c.storage == (*storage_root != EMPTY_ROOT_HASH),
{
    let bytecode = !same_hash(code_hash, &KECCAK_EMPTY);
    let storage = !same_hash(storage_root, &EMPTY_ROOT_HASH);
    AccountChecks { bytecode, storage }
}

} // verus!
