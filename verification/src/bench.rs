//! The schedule of the history network benchmarks: which content each step
//! stores, offers or fetches, and when the epoch accumulator changes.
use vstd::prelude::*;

verus! {

/// Number of blocks covered by one epoch accumulator.
pub const EPOCH_SIZE: u64 = 8192;

/// The kinds of history content a block gives.
#[derive(Clone, Copy, Debug, PartialEq, Eq)]
pub enum HistoryContentType {
    /// The header, with its proof.
    BlockHeader,
    /// The body.
    BlockBody,
    /// The receipts.
    Receipts,
}

/// One step of a benchmark: a kind of content of one block.
#[derive(Clone, Copy, Debug, PartialEq, Eq)]
pub struct BenchItem {
    pub content: HistoryContentType,
    pub block_index: usize,
}

/// The steps of a benchmark over `block_count` blocks: the headers of all
/// blocks in order, then their bodies, then their receipts.
pub open spec fn bench_schedule_spec(block_count: nat) -> Seq<BenchItem> {
    Seq::new(
        3 * block_count,
        |k: int|
            BenchItem {
                content: if k < block_count {
                    HistoryContentType::BlockHeader
                } else if k < 2 * block_count {
                    HistoryContentType::BlockBody
                } else {
                    HistoryContentType::Receipts
                },
                block_index: (if k < block_count {
                    k
                } else if k < 2 * block_count {
                    k - block_count
                } else {
                    k - 2 * block_count
                }) as usize,
            },
    )
}

/// The steps of a benchmark over `block_count` blocks: see
/// `bench_schedule_spec`.
pub fn bench_schedule(block_count: usize) -> (steps: Vec<BenchItem>)
    requires
        3 * block_count <= usize::MAX,
    ensures
        steps@ == bench_schedule_spec(block_count as nat),
{
    let mut steps: Vec<BenchItem> = Vec::new();
    let ghost n = block_count as int;
    let mut pass: usize = 0;
    while pass < 3
        invariant
            pass <= 3,
            n == block_count,
            3 * block_count <= usize::MAX,
            steps@.len() == pass * n,
            forall|k: int| 0 <= k < steps@.len() ==> #[trigger] steps@[k] == bench_schedule_spec(
                block_count as nat,
            )[k],
        decreases 3 - pass,
    {
        let content = if pass == 0 {
            HistoryContentType::BlockHeader
        } else if pass == 1 {
            HistoryContentType::BlockBody
        } else {
            HistoryContentType::Receipts
        };
        let mut i: usize = 0;
        while i < block_count
            invariant
                pass < 3,
                n == block_count,
                i <= block_count,
                3 * block_count <= usize::MAX,
                steps@.len() == pass * n + i,
                content == (if pass == 0 {
                    HistoryContentType::BlockHeader
                } else if pass == 1 {
                    HistoryContentType::BlockBody
                } else {
                    HistoryContentType::Receipts
                }),
                forall|k: int| 0 <= k < steps@.len() ==> #[trigger] steps@[k]
                    == bench_schedule_spec(block_count as nat)[k],
            decreases block_count - i,
        {
            proof {
                assert(pass * n + i < 3 * n) by (nonlinear_arith)
                    requires
                        pass < 3,
                        i < n,
                ;
            }
            let ghost k = pass * n + i;
            steps.push(BenchItem { content, block_index: i });
            proof {
                if pass == 0 {
                    assert(k == i);
                } else if pass == 1 {
                    assert(k == n + i);
                } else {
                    assert(k == 2 * n + i);
                }
                assert(steps@[k] == bench_schedule_spec(block_count as nat)[k]);
            }
            i = i + 1;
        }
        proof {
            assert((pass + 1) * n == pass * n + n) by (nonlinear_arith);
        }
        pass = pass + 1;
    }
    assert(steps@ =~= bench_schedule_spec(block_count as nat));
    steps
}

/// The epoch accumulator in use while walking blocks in order.
pub struct EpochCursor {
    current: Option<u64>,
}

impl EpochCursor {
    /// No accumulator loaded yet.
    pub fn new() -> (c: Self)
        ensures
            c.current_epoch() is None,
    {
        EpochCursor { current: None }
    }

    /// The epoch whose accumulator is loaded.
    pub closed spec fn current_epoch(&self) -> Option<u64> {
        self.current
    }

    /// Moves to the block at `height`: the epoch whose accumulator must be
    /// looked up when the block lies in another epoch than the loaded one.
    pub fn next_lookup(&mut self, height: u64) -> (lookup: Option<u64>)
        ensures
            old(self).current_epoch() == Some(height / EPOCH_SIZE) ==> lookup is None
                && final(self).current_epoch() == old(self).current_epoch(),
            old(self).current_epoch() != Some(height / EPOCH_SIZE) ==> lookup == Some(
                height / EPOCH_SIZE,
            ),
            final(self).current_epoch() == Some(height / EPOCH_SIZE),
    {
        let epoch = height / EPOCH_SIZE;
        match self.current {
            Some(e) => {
                if e == epoch {
                    return None;
                }
            },
            None => {},
        }
        self.current = Some(epoch);
        Some(epoch)
    }
}

} // verus!
