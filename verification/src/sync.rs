//! The decisions of the block syncers: when to commit the executed state,
//! when to stop, how to wait for the consensus client, and how to find the
//! beacon slot of an execution block.
use crate::execution_position::{ExecutionPositionV2, PositionModel, v2_encoding};
use crate::hash::same_hash;
use crate::text::{decimal_string, decimal_text, hash_string, hash_text};
use vstd::prelude::*;
use vstd::string::StringExecFns;

verus! {

/// First block of the range where the state is not committed early: during
/// the 2016 denial-of-service attack, early commits would write many empty
/// accounts to disk.
pub const DOS_RANGE_START: u64 = 2_200_000;

/// End (exclusive) of the range where the state is not committed early.
pub const DOS_RANGE_END: u64 = 2_700_000;

/// Whether `block_number` lies in the range where early commits are skipped.
pub fn in_dos_range(block_number: u64) -> (b: bool)
    ensures
        b == (DOS_RANGE_START <= block_number < DOS_RANGE_END),
{
    DOS_RANGE_START <= block_number && block_number < DOS_RANGE_END
}

/// What a syncer does after executing a block.
#[derive(Clone, Copy, Debug, PartialEq, Eq)]
pub enum SyncAction {
    /// Commit the executed state and stop syncing.
    CommitAndStop,
    /// Commit the executed state and go on with the next block.
    CommitAndContinue,
    /// Go on with the next block, keeping the state in memory.
    Continue,
}

/// The decision of the blocking syncer after executing a block.
pub open spec fn blocking_sync_action_spec(
    block_number: u64,
    debug_last_block: Option<u64>,
    stop_signal_received: bool,
    next_block_finished: bool,
    should_commit: bool,
    has_bridge_channel: bool,
) -> SyncAction {
    if debug_last_block == Some(block_number) || stop_signal_received || next_block_finished {
        SyncAction::CommitAndStop
    } else if (should_commit && !(DOS_RANGE_START <= block_number < DOS_RANGE_END))
        || has_bridge_channel {
        SyncAction::CommitAndContinue
    } else {
        SyncAction::Continue
    }
}

/// Inside the denial-of-service range, and without a bridge to feed, the
/// blocking syncer never commits early: it either goes on or stops.
pub proof fn lemma_no_early_commit_in_dos_range(
    block_number: u64,
    debug_last_block: Option<u64>,
    stop_signal_received: bool,
    next_block_finished: bool,
    should_commit: bool,
)
    requires
        DOS_RANGE_START <= block_number < DOS_RANGE_END,
    ensures
        blocking_sync_action_spec(
            block_number,
            debug_last_block,
            stop_signal_received,
            next_block_finished,
            should_commit,
            false,
        ) != SyncAction::CommitAndContinue,
        range_sync_action_spec(block_number, next_block_finished, should_commit)
            != SyncAction::CommitAndContinue,
{
}

/// The decision of the blocking syncer after executing block `block_number`
/// and fetching the next: it stops at the debug last block, on a stop signal,
/// or when no block follows; otherwise it commits early when the executor asks
/// for it outside the denial-of-service range, and after every block when the
/// state diffs go to a bridge.
pub fn blocking_sync_action(
    block_number: u64,
    debug_last_block: Option<u64>,
    stop_signal_received: bool,
    next_block_finished: bool,
    should_commit: bool,
    has_bridge_channel: bool,
) -> (action: SyncAction)
    ensures
        action == blocking_sync_action_spec(
            block_number,
            debug_last_block,
            stop_signal_received,
            next_block_finished,
            should_commit,
            has_bridge_channel,
        ),
{
    let at_debug_last_block = match debug_last_block {
        Some(last) => last == block_number,
        None => false,
    };
    if at_debug_last_block || stop_signal_received || next_block_finished {
        SyncAction::CommitAndStop
    } else if (should_commit && !in_dos_range(block_number)) || has_bridge_channel {
        SyncAction::CommitAndContinue
    } else {
        SyncAction::Continue
    }
}

/// Why a range of blocks cannot be processed.
#[derive(Clone, Copy, Debug, PartialEq, Eq)]
pub enum RangeSyncError {
    /// The last block of the range comes before the next block to execute.
    LastBlockBeforeStart { last_block: u64, start_block: u64 },
}

/// The message of a range error.
pub open spec fn range_sync_error_text(e: RangeSyncError) -> Seq<char> {
    match e {
        RangeSyncError::LastBlockBeforeStart { last_block, start_block } => "Last block number "@
            + decimal_text(last_block as nat) + " is less than start block number "@
            + decimal_text(start_block as nat),
    }
}

impl RangeSyncError {
    /// The message this error is reported with.
    pub fn message(&self) -> (m: String)
        ensures
            m@ == range_sync_error_text(*self),
    {
        match self {
            RangeSyncError::LastBlockBeforeStart { last_block, start_block } => {
                let mut m = String::from_str("Last block number ");
                m.append(decimal_string(*last_block).as_str());
                m.append(" is less than start block number ");
                m.append(decimal_string(*start_block).as_str());
                m
            },
        }
    }
}

/// Checks that a range of blocks ending at `last_block` (inclusive) can be
/// processed from `start_block`, the next block to execute.
pub fn check_block_range(start_block: u64, last_block: u64) -> (res: Result<(), RangeSyncError>)
    ensures
        res is Ok <==> last_block >= start_block,
        res is Err ==> res->Err_0 == (RangeSyncError::LastBlockBeforeStart {
            last_block,
            start_block,
        }),
{
    if last_block >= start_block {
        Ok(())
    } else {
        Err(RangeSyncError::LastBlockBeforeStart { last_block, start_block })
    }
}

/// Whether the range syncer stops right after executing `block_number`: at
/// the last block of the range, or on a stop signal.
pub fn range_sync_reached_end(block_number: u64, last_block: u64, stop_signal_received: bool) -> (b:
    bool)
    ensures
        b == (block_number == last_block || stop_signal_received),
{
    block_number == last_block || stop_signal_received
}

/// The decision of the range syncer once the next block is fetched.
pub open spec fn range_sync_action_spec(
    block_number: u64,
    next_block_finished: bool,
    should_commit: bool,
) -> SyncAction {
    if next_block_finished {
        SyncAction::CommitAndStop
    } else if should_commit && !(DOS_RANGE_START <= block_number < DOS_RANGE_END) {
        SyncAction::CommitAndContinue
    } else {
        SyncAction::Continue
    }
}

/// The decision of the range syncer after fetching the block that follows
/// `block_number`: it stops when there is none, and otherwise commits early
/// when the executor asks for it outside the denial-of-service range.
pub fn range_sync_action(block_number: u64, next_block_finished: bool, should_commit: bool) -> (action:
    SyncAction)
    ensures
        action == range_sync_action_spec(block_number, next_block_finished, should_commit),
{
    if next_block_finished {
        SyncAction::CommitAndStop
    } else if should_commit && !in_dos_range(block_number) {
        SyncAction::CommitAndContinue
    } else {
        SyncAction::Continue
    }
}

/// What the block source answered to a request for the next block.
#[derive(Clone, Copy, Debug, PartialEq, Eq)]
pub enum FetchOutcome {
    /// A block to execute.
    Block,
    /// No more blocks.
    Finished,
    /// The consensus client is still syncing.
    ConsensusClientIsSyncing,
    /// The request failed.
    Failed,
}

/// What the blocking syncer does with an answer to a request for the next block.
#[derive(Clone, Copy, Debug, PartialEq, Eq)]
pub enum FetchStep {
    /// Execute the block.
    Execute,
    /// Stop syncing: there is nothing more to execute.
    Finish,
    /// Wait for the consensus client, then ask again.
    WaitAndRetry,
}

/// How the blocking syncer handles an answer to a request for the next block.
pub open spec fn fetch_step_of(outcome: FetchOutcome, stop_signal_received: bool) -> FetchStep {
    match outcome {
        FetchOutcome::Block => FetchStep::Execute,
        FetchOutcome::Finished | FetchOutcome::Failed => FetchStep::Finish,
        FetchOutcome::ConsensusClientIsSyncing => if stop_signal_received {
            FetchStep::Finish
        } else {
            FetchStep::WaitAndRetry
        },
    }
}

/// How the blocking syncer handles an answer to a request for the next block:
/// a block is executed; no block or a failed request ends the sync; while the
/// consensus client syncs, it waits and asks again unless a stop signal came.
pub fn fetch_step(outcome: FetchOutcome, stop_signal_received: bool) -> (step: FetchStep)
    ensures
        step == fetch_step_of(outcome, stop_signal_received),
{
    match outcome {
        FetchOutcome::Block => FetchStep::Execute,
        FetchOutcome::Finished => FetchStep::Finish,
        FetchOutcome::Failed => FetchStep::Finish,
        FetchOutcome::ConsensusClientIsSyncing => {
            if stop_signal_received {
                FetchStep::Finish
            } else {
                FetchStep::WaitAndRetry
            }
        },
    }
}

/// Why a sync cannot start.
#[derive(Clone, Copy, Debug, PartialEq, Eq)]
pub enum SyncStartError {
    /// The very first request for a block already found none.
    NoMoreBlocks,
}

impl SyncStartError {
    /// The message this error is reported with.
    pub fn message(&self) -> (m: String)
        ensures
            m@ == "No more blocks to process"@,
    {
        "No more blocks to process".to_string()
    }
}

/// How a syncer handles the answer to its very first request for a block:
/// as any later answer, except that finding no block to execute is an error,
/// since there is nothing to sync and nothing to commit.
pub fn first_fetch_step(outcome: FetchOutcome, stop_signal_received: bool) -> (res: Result<
    FetchStep,
    SyncStartError,
>)
    ensures
        fetch_step_of(outcome, stop_signal_received) == FetchStep::Finish ==> res == Err::<
            FetchStep,
            SyncStartError,
        >(SyncStartError::NoMoreBlocks),
        fetch_step_of(outcome, stop_signal_received) != FetchStep::Finish ==> res == Ok::<
            FetchStep,
            SyncStartError,
        >(fetch_step_of(outcome, stop_signal_received)),
        outcome == FetchOutcome::Finished ==> res == Err::<FetchStep, SyncStartError>(
            SyncStartError::NoMoreBlocks,
        ),
{
    match fetch_step(outcome, stop_signal_received) {
        FetchStep::Finish => Err(SyncStartError::NoMoreBlocks),
        step => Ok(step),
    }
}

/// A commit whose computed state root differs from the block's.
#[derive(Clone, Copy, Debug, PartialEq, Eq)]
pub struct StateRootMismatch {
    pub block_number: u64,
    pub generated_root: [u8; 32],
    pub expected_root: [u8; 32],
}

/// The message of a state root mismatch.
pub open spec fn state_root_mismatch_text(e: StateRootMismatch) -> Seq<char> {
    "State root doesn't match! Irreversible! Block number: "@ + decimal_text(
        e.block_number as nat,
    ) + " | Generated root: "@ + hash_text(e.generated_root) + " | Expected root: "@ + hash_text(
        e.expected_root,
    )
}

impl StateRootMismatch {
    /// The message this error is reported with.
    pub fn message(&self) -> (m: String)
        ensures
            m@ == state_root_mismatch_text(*self),
    {
        let mut m = String::from_str("State root doesn't match! Irreversible! Block number: ");
        m.append(decimal_string(self.block_number).as_str());
        m.append(" | Generated root: ");
        m.append(hash_string(&self.generated_root).as_str());
        m.append(" | Expected root: ");
        m.append(hash_string(&self.expected_root).as_str());
        m
    }
}

/// What the state bridge has answered so far about a committed block.
#[derive(Clone, Copy, Debug, PartialEq, Eq)]
pub enum BridgeReply {
    /// The bridge has answered.
    Received,
    /// No answer yet.
    Pending,
    /// The bridge is gone.
    Closed,
}

/// What the blocking syncer does while it waits for the state bridge.
#[derive(Clone, Copy, Debug, PartialEq, Eq)]
pub enum BridgeWaitStep {
    /// Go on with the next block.
    Proceed,
    /// Stop syncing: a stop signal came.
    Stop,
    /// Fail: the bridge is gone.
    Fail,
    /// Wait a little, then look again.
    Poll,
}

/// How the blocking syncer waits for the state bridge: it goes on once the
/// bridge answered and fails when the bridge is gone; while no answer has
/// come, it stops on a stop signal and otherwise waits.
pub fn bridge_wait_step(reply: BridgeReply, stop_signal_received: bool) -> (step: BridgeWaitStep)
    ensures
        step == (match reply {
            BridgeReply::Received => BridgeWaitStep::Proceed,
            BridgeReply::Closed => BridgeWaitStep::Fail,
            BridgeReply::Pending => if stop_signal_received {
                BridgeWaitStep::Stop
            } else {
                BridgeWaitStep::Poll
            },
        }),
{
    match reply {
        BridgeReply::Received => BridgeWaitStep::Proceed,
        BridgeReply::Closed => BridgeWaitStep::Fail,
        BridgeReply::Pending => {
            if stop_signal_received {
                BridgeWaitStep::Stop
            } else {
                BridgeWaitStep::Poll
            }
        },
    }
}

/// Commits the execution of block `block_number`: the state root computed by
/// execution must be the block's own; then the position moves past the block,
/// and the record to store is returned. On a mismatch nothing changes.
pub fn commit_position(
    position: &mut ExecutionPositionV2,
    block_number: u64,
    expected_root: [u8; 32],
    generated_root: [u8; 32],
) -> (res: Result<Vec<u8>, StateRootMismatch>)
    requires
        block_number < u64::MAX,
    ensures
        res is Ok <==> generated_root == expected_root,
        res is Err ==> *final(position) == *old(position) && res->Err_0 == (StateRootMismatch {
            block_number,
            generated_root,
            expected_root,
        }),
        res is Ok ==> final(position)@ == (PositionModel {
            next_block_number: (block_number + 1) as u64,
            state_root: expected_root,
            ..old(position)@
        }) && res->Ok_0@ == v2_encoding(final(position)@),
{
    if !same_hash(&generated_root, &expected_root) {
        return Err(StateRootMismatch { block_number, generated_root, expected_root });
    }
    Ok(position.update_position(block_number, expected_root))
}

/// The sync status reported by the consensus client's beacon node API.
#[derive(Clone, Copy, Debug, PartialEq, Eq)]
pub struct Syncing {
    /// The slot of the head block.
    pub head_slot: u64,
    /// How many slots the head is behind the current slot.
    pub sync_distance: u64,
    /// Whether the node is syncing.
    pub is_syncing: bool,
    /// Whether the head was imported optimistically.
    pub is_optimistic: bool,
    /// Whether the execution client is offline.
    pub el_offline: bool,
}

/// What probing a beacon slot gave.
#[derive(Clone, Copy, Debug, PartialEq, Eq)]
pub enum SlotProbe {
    /// The slot holds a block with this execution block number.
    Block(u64),
    /// The slot was skipped: it holds no block.
    Missing,
    /// The request for the slot failed.
    Failed,
}

/// What the beacon node answered to a request for the block of a slot.
#[derive(Clone, Copy, Debug, PartialEq, Eq)]
pub enum SlotResponse {
    /// The request could not be made or answered.
    RequestFailed,
    /// The node has no block for the slot: the slot was skipped.
    NotFound,
    /// A block came back: the execution block number it carries, or `None`
    /// where the block could not be read.
    Block(Option<u64>),
}

/// How an answer for the block of a slot counts in the search: a skipped
/// slot is missing, a block read is probed by its execution block number, and
/// any failure to get or read the block is a failed probe.
pub fn slot_probe_of(response: SlotResponse) -> (probe: SlotProbe)
    ensures
        probe == (match response {
            SlotResponse::NotFound => SlotProbe::Missing,
            SlotResponse::Block(Some(n)) => SlotProbe::Block(n),
            _ => SlotProbe::Failed,
        }),
{
    match response {
        SlotResponse::RequestFailed => SlotProbe::Failed,
        SlotResponse::NotFound => SlotProbe::Missing,
        SlotResponse::Block(Some(n)) => SlotProbe::Block(n),
        SlotResponse::Block(None) => SlotProbe::Failed,
    }
}

/// Why no slot was found.
#[derive(Clone, Copy, Debug, PartialEq, Eq)]
pub enum SlotSearchError {
    /// No probed slot holds the execution block.
    BlockNotFound,
}

/// Abstract state of a `SlotSearch`.
pub struct SlotSearchModel {
    pub start: u64,
    pub end: u64,
    pub target: u64,
}

/// Binary search for the beacon slot holding a given execution block, over
/// the slots from a starting slot to the head slot.
pub struct SlotSearch {
    start: u64,
    end: u64,
    target: u64,
}

impl View for SlotSearch {
    type V = SlotSearchModel;

    closed spec fn view(&self) -> SlotSearchModel {
        SlotSearchModel { start: self.start, end: self.end, target: self.target }
    }
}

/// The slot probed next: the middle of the remaining range.
pub open spec fn slot_midpoint(m: SlotSearchModel) -> u64 {
    ((m.start + m.end) / 2) as u64
}

/// The slots still to search.
pub open spec fn slots_left(m: SlotSearchModel) -> int {
    m.end + 1 - m.start
}

/// What a probe of the middle slot does to the search: the slot is found when
/// it holds the target block; a skipped slot ends the search; a failed request
/// moves on past the start slot; otherwise the range halves.
pub open spec fn slot_search_after(m: SlotSearchModel, probe: SlotProbe) -> (
    SlotSearchModel,
    Option<Result<u64, SlotSearchError>>,
) {
    let mid = slot_midpoint(m);
    match probe {
        SlotProbe::Block(n) => if n == m.target {
            (m, Some(Ok(mid)))
        } else if n > m.target {
            (SlotSearchModel { end: (mid - 1) as u64, ..m }, None)
        } else {
            (SlotSearchModel { start: (mid + 1) as u64, ..m }, None)
        },
        SlotProbe::Missing => (m, Some(Err(SlotSearchError::BlockNotFound))),
        SlotProbe::Failed => (SlotSearchModel { start: (m.start + 1) as u64, ..m }, None),
    }
}

/// A probe of the middle slot can be taken into account without overflow.
pub open spec fn slot_probe_fits(m: SlotSearchModel, probe: SlotProbe) -> bool {
    match probe {
        SlotProbe::Block(n) => (n > m.target ==> slot_midpoint(m) >= 1) && (n < m.target
            ==> slot_midpoint(m) < u64::MAX),
        SlotProbe::Missing => true,
        SlotProbe::Failed => m.start < u64::MAX,
    }
}

/// A failed request for the middle slot gives up only on the start slot: the
/// search goes on with the same end and target, its start moved one slot on,
/// so every other slot of the range is still searched.
pub proof fn lemma_failed_probe_moves_start(m: SlotSearchModel, s: u64)
    requires
        m.start < u64::MAX,
        m.start < s <= m.end,
    ensures
        slot_search_after(m, SlotProbe::Failed).1 is None,
        slot_search_after(m, SlotProbe::Failed).0.start == m.start + 1,
        slot_search_after(m, SlotProbe::Failed).0.end == m.end,
        slot_search_after(m, SlotProbe::Failed).0.target == m.target,
        slot_search_after(m, SlotProbe::Failed).0.start <= s <= slot_search_after(
            m,
            SlotProbe::Failed,
        ).0.end,
{
}

/// A missing block at the middle slot ends the search with no slot; a block
/// at the middle slot that is the target ends it with that slot.
pub proof fn lemma_probe_outcomes(m: SlotSearchModel, n: u64)
    ensures
        slot_search_after(m, SlotProbe::Missing).1 == Some(
            Err::<u64, SlotSearchError>(SlotSearchError::BlockNotFound),
        ),
        n == m.target ==> slot_search_after(m, SlotProbe::Block(n)).1 == Some(
            Ok::<u64, SlotSearchError>(((m.start + m.end) / 2) as u64),
        ),
        n != m.target ==> slot_search_after(m, SlotProbe::Block(n)).1 is None,
{
}

/// When execution block numbers rise with the slot and the target block sits
/// at slot `s` within the range, probing the middle slot either finds `s` or
/// keeps `s` within the narrower range; with the measure of `record`, the
/// search then ends at `s`.
pub proof fn lemma_slot_search_keeps_target(
    m: SlotSearchModel,
    block_at: spec_fn(u64) -> u64,
    s: u64,
)
    requires
        m.start <= s <= m.end,
        m.start + m.end <= u64::MAX,
        block_at(s) == m.target,
        forall|a: u64, b: u64| a < b ==> #[trigger] block_at(a) < #[trigger] block_at(b),
    ensures
        slot_probe_fits(m, SlotProbe::Block(block_at(slot_midpoint(m)))),
        ({
            let (next, outcome) = slot_search_after(
                m,
                SlotProbe::Block(block_at(slot_midpoint(m))),
            );
            match outcome {
                Some(r) => r == Ok::<u64, SlotSearchError>(s),
                None => next.start <= s <= next.end && next.target == m.target,
            }
        }),
{
    let mid = slot_midpoint(m);
    assert(m.start <= mid <= m.end);
    if mid < s {
        assert(block_at(mid) < block_at(s));
    } else if mid > s {
        assert(block_at(s) < block_at(mid));
    }
}

impl SlotSearch {
    /// A search for the slot holding execution block `block_number`, between
    /// `starting_slot` and `head_slot` (inclusive), the head slot reported in
    /// the consensus client's `Syncing` status.
    pub fn new(starting_slot: u64, head_slot: u64, block_number: u64) -> (s: Self)
        ensures
            s@ == (SlotSearchModel { start: starting_slot, end: head_slot, target: block_number }),
    {
        SlotSearch { start: starting_slot, end: head_slot, target: block_number }
    }

    /// The slot to probe next; `None` once the range is empty, when the block
    /// was not found.
    pub fn next_slot(&self) -> (slot: Option<u64>)
        requires
            self@.start <= self@.end ==> self@.start + self@.end <= u64::MAX,
        ensures
            self@.start <= self@.end ==> slot == Some(slot_midpoint(self@)),
            self@.start > self@.end ==> slot is None,
            slot matches Some(m) ==> self@.start <= m <= self@.end,
    {
        if self.start <= self.end {
            Some((self.start + self.end) / 2)
        } else {
            None
        }
    }

    /// Takes into account what probing the slot given by `next_slot` gave; the
    /// outcome of the search once it is decided.
    pub fn record(&mut self, probe: SlotProbe) -> (outcome: Option<Result<u64, SlotSearchError>>)
        requires
            old(self)@.start <= old(self)@.end,
            old(self)@.start + old(self)@.end <= u64::MAX,
            slot_probe_fits(old(self)@, probe),
        ensures
            (final(self)@, outcome) == slot_search_after(old(self)@, probe),
            probe == SlotProbe::Failed ==> outcome is None && final(self)@.start == old(self)@.start
                + 1 && final(self)@.end == old(self)@.end && final(self)@.target
                == old(self)@.target,
            outcome is None ==> slots_left(final(self)@) < slots_left(old(self)@),
    {
        let mid = (self.start + self.end) / 2;
        match probe {
            SlotProbe::Block(n) => {
                if n == self.target {
                    Some(Ok(mid))
                } else if n > self.target {
                    self.end = mid - 1;
                    None
                } else {
                    self.start = mid + 1;
                    None
                }
            },
            SlotProbe::Missing => Some(Err(SlotSearchError::BlockNotFound)),
            SlotProbe::Failed => {
                self.start = self.start + 1;
                None
            },
        }
    }
}

} // verus!
