//! The content the state bridge gossips for the state changes of one block:
//! for each changed account, in order, the account itself, its bytecode when
//! the contract was created by the block, and its changed storage nodes, all
//! numbered one after the other.
use crate::hash::same_hash;
use crate::stats::KECCAK_EMPTY;
use vstd::prelude::*;

verus! {

/// The kinds of state content gossiped for an account.
#[derive(Clone, Copy, Debug, PartialEq, Eq)]
pub enum GossipKind {
    /// The account trie node, with its proof.
    Account,
    /// The contract bytecode, with the account's proof.
    ContractBytecode,
    /// A storage trie node, with its proof.
    Storage,
}

/// Whether the bytecode of an account is gossiped: the account has code, and
/// that code was created by the block.
pub open spec fn gossips_bytecode(code_hash: [u8; 32], newly_created_code: bool) -> bool {
    code_hash != KECCAK_EMPTY && newly_created_code
}

/// The content items gossiped for one account, each with its number: the
/// account numbered `first_index`, then its bytecode where it is gossiped,
/// then its `storage_items` changed storage nodes, numbered on.
pub open spec fn account_gossip_spec(
    code_hash: [u8; 32],
    newly_created_code: bool,
    storage_items: nat,
    first_index: nat,
) -> Seq<(GossipKind, u64)> {
    let head: Seq<(GossipKind, u64)> = if gossips_bytecode(code_hash, newly_created_code) {
        seq![(GossipKind::Account, first_index as u64), (GossipKind::ContractBytecode, (first_index + 1) as u64)]
    } else {
        seq![(GossipKind::Account, first_index as u64)]
    };
    head + Seq::new(
        storage_items,
        |i: int| (GossipKind::Storage, (first_index + head.len() + i) as u64),
    )
}

/// The numbered content items gossiped for one account: see
/// `account_gossip_spec`. The next account's items are numbered from
/// `first_index` plus the number of these.
pub fn account_gossip_items(
    code_hash: &[u8; 32],
    newly_created_code: bool,
    storage_items: usize,
    first_index: u64,
) -> (items: Vec<(GossipKind, u64)>)
    requires
        first_index + 2 + storage_items <= u64::MAX,
    ensures
        items@ == account_gossip_spec(
            *code_hash,
            newly_created_code,
            storage_items as nat,
            first_index as nat,
        ),
{
    let ghost spec_items = account_gossip_spec(
        *code_hash,
        newly_created_code,
        storage_items as nat,
        first_index as nat,
    );
    let mut items: Vec<(GossipKind, u64)> = Vec::new();
    items.push((GossipKind::Account, first_index));
    let mut index = first_index + 1;
    if !same_hash(code_hash, &KECCAK_EMPTY) && newly_created_code {
        items.push((GossipKind::ContractBytecode, index));
        index = index + 1;
    }
    let head_len = items.len();
    assert(items@ =~= spec_items.take(head_len as int));
    let mut i: usize = 0;
    while i < storage_items
        invariant
            i <= storage_items,
            head_len <= 2,
            first_index + 2 + storage_items <= u64::MAX,
            index == first_index + head_len + i,
            spec_items.len() == head_len + storage_items,
            spec_items == account_gossip_spec(
                *code_hash,
                newly_created_code,
                storage_items as nat,
                first_index as nat,
            ),
            items@ =~= spec_items.take(head_len + i),
            forall|k: int|
                head_len <= k < spec_items.len() ==> #[trigger] spec_items[k] == (
                    GossipKind::Storage,
                    (first_index + k) as u64,
                ),
        decreases storage_items - i,
    {
        items.push((GossipKind::Storage, index));
        assert(spec_items[head_len + i] == (GossipKind::Storage, index));
        assert(items@ =~= spec_items.take(head_len + i + 1));
        index = index + 1;
        i = i + 1;
    }
    assert(spec_items.take(head_len + storage_items) =~= spec_items);
    items
}

} // verus!
