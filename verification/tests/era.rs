use trin_execution::era::{
    block_entry_start, check_slot_index_block_len, entry_header_range, entry_range,
    last_block_in_slot_index, slot_index_block_range, EraIndexError, SLOT_INDEX_BLOCK_ENTRY_SIZE,
    SLOT_INDEX_STATE_ENTRY_SIZE,
};

#[test]
fn slot_index_block_sits_before_the_state_index() {
    let len = 1_000_000u64;
    let (start, end) = slot_index_block_range(len);
    assert_eq!(start, len - 65_560 - 32);
    assert_eq!(end, len - 32 - 1);
    assert_eq!(end - start + 1, SLOT_INDEX_BLOCK_ENTRY_SIZE);
    assert_eq!(SLOT_INDEX_STATE_ENTRY_SIZE, 32);
}

#[test]
fn slot_index_size_is_checked() {
    assert_eq!(check_slot_index_block_len(65_560), Ok(()));
    assert_eq!(
        check_slot_index_block_len(10),
        Err(EraIndexError::SlotIndexSize { got: 10, expected: 65_560 })
    );
}

#[test]
fn last_block_is_the_last_filled_slot() {
    let len = 500u64;
    let empty = -(len as i64);
    let indices = vec![-400, empty, -300, empty, empty];
    assert_eq!(last_block_in_slot_index(8192, &indices, len), Ok((8194, -300)));
}

#[test]
fn era_without_blocks_has_no_last_block() {
    let len = 500u64;
    let indices = vec![-500i64; 4];
    assert_eq!(last_block_in_slot_index(0, &indices, len), Err(EraIndexError::NoBlock));
    assert_eq!(last_block_in_slot_index(0, &vec![], len), Err(EraIndexError::NoBlock));
}

#[test]
fn block_entry_offsets() {
    let start = block_entry_start(10_000, -2_500);
    assert_eq!(start, 7_500);
    assert_eq!(entry_header_range(start), (7_500, 7_507));
    assert_eq!(entry_range(start, 100), (7_500, 7_607));
}
