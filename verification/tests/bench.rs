use trin_execution::bench::{bench_schedule, BenchItem, EpochCursor, HistoryContentType, EPOCH_SIZE};

#[test]
fn schedule_goes_headers_bodies_receipts() {
    let steps = bench_schedule(2);
    assert_eq!(
        steps,
        vec![
            BenchItem { content: HistoryContentType::BlockHeader, block_index: 0 },
            BenchItem { content: HistoryContentType::BlockHeader, block_index: 1 },
            BenchItem { content: HistoryContentType::BlockBody, block_index: 0 },
            BenchItem { content: HistoryContentType::BlockBody, block_index: 1 },
            BenchItem { content: HistoryContentType::Receipts, block_index: 0 },
            BenchItem { content: HistoryContentType::Receipts, block_index: 1 },
        ]
    );
    assert!(bench_schedule(0).is_empty());
}

#[test]
fn epoch_accumulator_is_looked_up_on_epoch_change() {
    let mut cursor = EpochCursor::new();
    assert_eq!(cursor.next_lookup(0), Some(0));
    assert_eq!(cursor.next_lookup(EPOCH_SIZE - 1), None);
    assert_eq!(cursor.next_lookup(EPOCH_SIZE), Some(1));
    assert_eq!(cursor.next_lookup(3 * EPOCH_SIZE + 5), Some(3));
    assert_eq!(cursor.next_lookup(3 * EPOCH_SIZE + 6), None);
}
