use trin_execution::bridge::{account_gossip_items, GossipKind};
use trin_execution::stats::KECCAK_EMPTY;

#[test]
fn account_with_new_code_and_storage() {
    assert_eq!(
        account_gossip_items(&[7; 32], true, 2, 10),
        vec![
            (GossipKind::Account, 10),
            (GossipKind::ContractBytecode, 11),
            (GossipKind::Storage, 12),
            (GossipKind::Storage, 13),
        ]
    );
}

#[test]
fn bytecode_only_when_created_and_not_empty() {
    assert_eq!(
        account_gossip_items(&[7; 32], false, 1, 0),
        vec![(GossipKind::Account, 0), (GossipKind::Storage, 1)]
    );
    assert_eq!(
        account_gossip_items(&KECCAK_EMPTY, true, 0, 5),
        vec![(GossipKind::Account, 5)]
    );
}
