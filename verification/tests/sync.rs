use trin_execution::execution_position::ExecutionPositionV2;
use trin_execution::sync::{
    blocking_sync_action, bridge_wait_step, first_fetch_step, SyncStartError, check_block_range, BridgeReply, BridgeWaitStep, commit_position, fetch_step, in_dos_range,
    range_sync_action, range_sync_reached_end, FetchOutcome, FetchStep, RangeSyncError,
    slot_probe_of, SlotProbe, SlotResponse, SlotSearch, SlotSearchError, StateRootMismatch, SyncAction, Syncing,
    DOS_RANGE_END, DOS_RANGE_START,
};

#[test]
fn dos_range_bounds() {
    assert!(!in_dos_range(DOS_RANGE_START - 1));
    assert!(in_dos_range(DOS_RANGE_START));
    assert!(in_dos_range(DOS_RANGE_END - 1));
    assert!(!in_dos_range(DOS_RANGE_END));
}

#[test]
fn blocking_syncer_stops_at_debug_last_block() {
    assert_eq!(
        blocking_sync_action(100, Some(100), false, false, false, false),
        SyncAction::CommitAndStop
    );
    assert_eq!(
        blocking_sync_action(99, Some(100), false, false, false, false),
        SyncAction::Continue
    );
}

#[test]
fn blocking_syncer_stops_on_signal_or_end() {
    assert_eq!(blocking_sync_action(5, None, true, false, false, false), SyncAction::CommitAndStop);
    assert_eq!(blocking_sync_action(5, None, false, true, false, false), SyncAction::CommitAndStop);
}

#[test]
fn early_commits_skip_the_dos_range_unless_bridging() {
    assert_eq!(
        blocking_sync_action(1_000, None, false, false, true, false),
        SyncAction::CommitAndContinue
    );
    assert_eq!(
        blocking_sync_action(2_300_000, None, false, false, true, false),
        SyncAction::Continue
    );
    assert_eq!(
        blocking_sync_action(2_300_000, None, false, false, false, true),
        SyncAction::CommitAndContinue
    );
}

#[test]
fn range_syncer_decisions() {
    assert_eq!(check_block_range(10, 20), Ok(()));
    assert_eq!(
        check_block_range(21, 20),
        Err(RangeSyncError::LastBlockBeforeStart { last_block: 20, start_block: 21 })
    );
    assert!(range_sync_reached_end(20, 20, false));
    assert!(range_sync_reached_end(3, 20, true));
    assert!(!range_sync_reached_end(3, 20, false));
    assert_eq!(range_sync_action(3, true, false), SyncAction::CommitAndStop);
    assert_eq!(range_sync_action(3, false, true), SyncAction::CommitAndContinue);
    assert_eq!(range_sync_action(2_500_000, false, true), SyncAction::Continue);
    assert_eq!(range_sync_action(3, false, false), SyncAction::Continue);
}

#[test]
fn fetch_answers() {
    assert_eq!(fetch_step(FetchOutcome::Block, true), FetchStep::Execute);
    assert_eq!(fetch_step(FetchOutcome::Finished, false), FetchStep::Finish);
    assert_eq!(fetch_step(FetchOutcome::Failed, false), FetchStep::Finish);
    assert_eq!(fetch_step(FetchOutcome::ConsensusClientIsSyncing, false), FetchStep::WaitAndRetry);
    assert_eq!(fetch_step(FetchOutcome::ConsensusClientIsSyncing, true), FetchStep::Finish);
}

#[test]
fn commit_checks_the_state_root() {
    let mut p = ExecutionPositionV2::default();
    let err = commit_position(&mut p, 8, [1; 32], [2; 32]).unwrap_err();
    assert_eq!(
        err,
        StateRootMismatch { block_number: 8, generated_root: [2; 32], expected_root: [1; 32] }
    );
    assert_eq!(p, ExecutionPositionV2::default());
    let record = commit_position(&mut p, 8, [1; 32], [1; 32]).unwrap();
    assert_eq!(p.next_block_number(), 9);
    assert_eq!(p.state_root(), [1; 32]);
    assert_eq!(ExecutionPositionV2::decode(&record).unwrap(), p);
}

/// Runs a slot search against a chain where slot `s` holds execution block
/// `blocks(s)`.
fn search(start: u64, head: u64, target: u64, probe: impl Fn(u64) -> SlotProbe) -> Result<u64, SlotSearchError> {
    let mut s = SlotSearch::new(start, head, target);
    while let Some(slot) = s.next_slot() {
        if let Some(outcome) = s.record(probe(slot)) {
            return outcome;
        }
    }
    Err(SlotSearchError::BlockNotFound)
}

#[test]
fn slot_search_finds_the_block() {
    // Slot s holds block s + 1000 for every slot.
    let found = search(0, 10_000, 5_432, |s| SlotProbe::Block(s + 1000));
    assert_eq!(found, Ok(4_432));
}

#[test]
fn slot_search_stops_on_a_missing_slot() {
    let found = search(0, 100, 50, |s| if s == 50 { SlotProbe::Missing } else { SlotProbe::Block(s + 1) });
    assert_eq!(found, Err(SlotSearchError::BlockNotFound));
}

#[test]
fn slot_search_moves_past_failed_requests() {
    let found = search(10, 10, 1, |_| SlotProbe::Failed);
    assert_eq!(found, Err(SlotSearchError::BlockNotFound));
    let found = search(0, 4, 3, |s| if s == 2 { SlotProbe::Failed } else { SlotProbe::Block(s) });
    assert_eq!(found, Ok(3));
}

#[test]
fn slot_search_of_a_block_past_the_head_fails() {
    let found = search(0, 100, 1_000, |s| SlotProbe::Block(s));
    assert_eq!(found, Err(SlotSearchError::BlockNotFound));
}

#[test]
fn syncing_status_fields() {
    let s = Syncing { head_slot: 10, sync_distance: 0, is_syncing: false, is_optimistic: false, el_offline: true };
    let mut search = SlotSearch::new(5, s.head_slot, 7);
    assert_eq!(search.next_slot(), Some(7));
    assert_eq!(search.record(SlotProbe::Block(7)), Some(Ok(7)));
}

#[test]
fn range_error_message() {
    let e = RangeSyncError::LastBlockBeforeStart { last_block: 20, start_block: 21 };
    assert_eq!(e.message(), "Last block number 20 is less than start block number 21");
}

#[test]
fn state_root_mismatch_message() {
    let e = StateRootMismatch { block_number: 46_147, generated_root: [0xab; 32], expected_root: [0x01; 32] };
    assert_eq!(
        e.message(),
        format!(
            "State root doesn't match! Irreversible! Block number: 46147 | Generated root: 0x{} | Expected root: 0x{}",
            "ab".repeat(32),
            "01".repeat(32)
        )
    );
}

#[test]
fn waiting_for_the_bridge() {
    assert_eq!(bridge_wait_step(BridgeReply::Received, true), BridgeWaitStep::Proceed);
    assert_eq!(bridge_wait_step(BridgeReply::Closed, false), BridgeWaitStep::Fail);
    assert_eq!(bridge_wait_step(BridgeReply::Pending, true), BridgeWaitStep::Stop);
    assert_eq!(bridge_wait_step(BridgeReply::Pending, false), BridgeWaitStep::Poll);
}

#[test]
fn beacon_answers_as_probes() {
    assert_eq!(slot_probe_of(SlotResponse::NotFound), SlotProbe::Missing);
    assert_eq!(slot_probe_of(SlotResponse::Block(Some(21))), SlotProbe::Block(21));
    assert_eq!(slot_probe_of(SlotResponse::Block(None)), SlotProbe::Failed);
    assert_eq!(slot_probe_of(SlotResponse::RequestFailed), SlotProbe::Failed);
}

#[test]
fn first_fetch_without_a_block_is_an_error() {
    assert_eq!(first_fetch_step(FetchOutcome::Finished, false), Err(SyncStartError::NoMoreBlocks));
    assert_eq!(first_fetch_step(FetchOutcome::Failed, false), Err(SyncStartError::NoMoreBlocks));
    assert_eq!(
        first_fetch_step(FetchOutcome::ConsensusClientIsSyncing, true),
        Err(SyncStartError::NoMoreBlocks)
    );
    assert_eq!(first_fetch_step(FetchOutcome::Block, true), Ok(FetchStep::Execute));
    assert_eq!(
        first_fetch_step(FetchOutcome::ConsensusClientIsSyncing, false),
        Ok(FetchStep::WaitAndRetry)
    );
    assert_eq!(SyncStartError::NoMoreBlocks.message(), "No more blocks to process");
}
