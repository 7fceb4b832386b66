use trin_execution::execution_position::EMPTY_ROOT_HASH;
use trin_execution::stats::{
    account_checks, stats_block_number, AccountChecks, StateContentKind, Stats, StatsError,
    KECCAK_EMPTY,
};

#[test]
fn stats_count_sizes_and_kinds() {
    let mut stats = Stats::default();
    stats.check_content(StateContentKind::AccountTrieNodeWithProof, 35, 500, 120);
    stats.check_content(StateContentKind::ContractStorageTrieNodeWithProof, 67, 900, 110);
    stats.check_content(StateContentKind::ContractBytecodeWithProof, 53, 2_000, 1_200);
    stats.check_content(StateContentKind::AccountTrieNodeWithProof, 35, 400, 100);
    assert_eq!(stats.content_count(), 4);
    assert_eq!(stats.gossip_size(), 35 + 500 + 67 + 900 + 53 + 2_000 + 35 + 400);
    assert_eq!(
        stats.storage_size(),
        (32 + 35 + 120) + (32 + 67 + 110) + (32 + 53 + 1_200) + (32 + 35 + 100)
    );
    assert_eq!(stats.account_trie_count(), 2);
    assert_eq!(stats.contract_storage_trie_count(), 1);
    assert_eq!(stats.contract_bytecode_count(), 1);
}

#[test]
fn stats_need_an_executed_block() {
    assert_eq!(stats_block_number(0), Err(StatsError::NotInitialized));
    assert_eq!(stats_block_number(1), Ok(0));
    assert_eq!(stats_block_number(100), Ok(99));
}

#[test]
fn accounts_without_code_or_storage_need_no_more_checks() {
    assert_eq!(
        account_checks(&KECCAK_EMPTY, &EMPTY_ROOT_HASH),
        AccountChecks { bytecode: false, storage: false }
    );
    assert_eq!(
        account_checks(&[1; 32], &[2; 32]),
        AccountChecks { bytecode: true, storage: true }
    );
    assert_eq!(
        account_checks(&KECCAK_EMPTY, &[2; 32]),
        AccountChecks { bytecode: false, storage: true }
    );
}
