//! The chain of blocks received from the consensus client: blocks that
//! extend the canonical chain are appended to it, the others open side
//! chains.
use crate::hash::same_hash;
use vstd::prelude::*;

verus! {

/// A block with the two hashes that place it in a chain.
pub struct ChainBlock<B> {
    /// Hash of the block's header.
    pub hash: [u8; 32],
    /// Hash of the header of the block's parent.
    pub parent_hash: [u8; 32],
    /// The block itself.
    pub block: B,
}

/// Abstract state of a `Blockchain`.
pub struct BlockchainModel<B> {
    pub blocks: Seq<ChainBlock<B>>,
    pub side_chains: Seq<Seq<ChainBlock<B>>>,
}

/// The canonical chain and the side chains seen so far.
pub struct Blockchain<B> {
    blocks: Vec<ChainBlock<B>>,
    side_chains: Vec<Vec<ChainBlock<B>>>,
}

/// The contents of each chain of `chains`.
pub open spec fn chain_views<B>(chains: Seq<Vec<ChainBlock<B>>>) -> Seq<Seq<ChainBlock<B>>> {
    chains.map_values(|c: Vec<ChainBlock<B>>| c@)
}

impl<B> View for Blockchain<B> {
    type V = BlockchainModel<B>;

    closed spec fn view(&self) -> BlockchainModel<B> {
        BlockchainModel { blocks: self.blocks@, side_chains: chain_views(self.side_chains@) }
    }
}

/// The chains of `chains` that hold at least one block, in their order.
pub open spec fn nonempty_chains<B>(chains: Seq<Seq<ChainBlock<B>>>) -> Seq<Seq<ChainBlock<B>>>
    decreases chains.len(),
{
    if chains.len() == 0 {
        Seq::empty()
    } else if chains.last().len() > 0 {
        nonempty_chains(chains.drop_last()).push(chains.last())
    } else {
        nonempty_chains(chains.drop_last())
    }
}

/// Each block of `blocks` is the child of the one before it.
pub open spec fn hash_linked<B>(blocks: Seq<ChainBlock<B>>) -> bool {
    forall|i: int| 0 < i < blocks.len() ==> #[trigger] blocks[i].parent_hash == blocks[i - 1].hash
}

/// The invariant of a chain state: the canonical chain is hash-linked and no
/// side chain is empty.
pub open spec fn chain_state_wf<B>(m: BlockchainModel<B>) -> bool {
    &&& hash_linked(m.blocks)
    &&& forall|i: int| 0 <= i < m.side_chains.len() ==> #[trigger] m.side_chains[i].len() > 0
}

/// Whether `block` extends the canonical chain of `m`: it is the child of its
/// last block.
pub open spec fn extends_canonical<B>(m: BlockchainModel<B>, block: ChainBlock<B>) -> bool {
    m.blocks.len() > 0 && m.blocks.last().hash == block.parent_hash
}

/// The chain state after receiving `block`: it goes at the end of the
/// canonical chain when it extends it; otherwise the empty side chains are
/// dropped and the block opens a new side chain.
pub open spec fn after_block<B>(m: BlockchainModel<B>, block: ChainBlock<B>) -> BlockchainModel<B> {
    if extends_canonical(m, block) {
        BlockchainModel { blocks: m.blocks.push(block), side_chains: m.side_chains }
    } else {
        BlockchainModel {
            blocks: m.blocks,
            side_chains: nonempty_chains(m.side_chains).push(seq![block]),
        }
    }
}

proof fn lemma_nonempty_chains_wf<B>(chains: Seq<Seq<ChainBlock<B>>>)
    ensures
        forall|i: int|
            0 <= i < nonempty_chains(chains).len() ==> #[trigger] nonempty_chains(chains)[i].len()
                > 0,
    decreases chains.len(),
{
    if chains.len() > 0 {
        let prev = nonempty_chains(chains.drop_last());
        lemma_nonempty_chains_wf(chains.drop_last());
        assert forall|i: int| 0 <= i < nonempty_chains(chains).len() implies #[trigger]
            nonempty_chains(chains)[i].len() > 0 by {
            if i < prev.len() {
                assert(prev[i].len() > 0);
            }
        }
    }
}

/// Receiving a block keeps the invariant of the chain state.
pub proof fn lemma_after_block_wf<B>(m: BlockchainModel<B>, block: ChainBlock<B>)
    requires
        chain_state_wf(m),
    ensures
        chain_state_wf(after_block(m, block)),
{
    lemma_nonempty_chains_wf(m.side_chains);
    let n = after_block(m, block);
    if extends_canonical(m, block) {
        assert forall|i: int| 0 < i < n.blocks.len() implies #[trigger] n.blocks[i].parent_hash
            == n.blocks[i - 1].hash by {
            if i < m.blocks.len() {
                assert(m.blocks[i].parent_hash == m.blocks[i - 1].hash);
            }
        }
    }
}

/// When a block opens a side chain, every side chain holds a block
/// afterwards, whatever the state before: the empty ones are dropped.
pub proof fn lemma_side_chains_nonempty_after_opening<B>(m: BlockchainModel<B>, block: ChainBlock<B>)
    requires
        !extends_canonical(m, block),
    ensures
        forall|i: int|
            0 <= i < after_block(m, block).side_chains.len()
                ==> #[trigger] after_block(m, block).side_chains[i].len() > 0,
{
    lemma_nonempty_chains_wf(m.side_chains);
}

impl<B> Blockchain<B> {
    /// An empty chain state.
    pub fn new() -> (c: Self)
        ensures
            c@.blocks == Seq::<ChainBlock<B>>::empty(),
            c@.side_chains == Seq::<Seq<ChainBlock<B>>>::empty(),
            chain_state_wf(c@),
    {
        let c = Blockchain { blocks: Vec::new(), side_chains: Vec::new() };
        assert(chain_views(c.side_chains@) =~= Seq::<Seq<ChainBlock<B>>>::empty());
        c
    }

    /// Receives a block: see `after_block`.
    pub fn process_block(&mut self, block: ChainBlock<B>)
        ensures
            final(self)@ == after_block(old(self)@, block),
            chain_state_wf(old(self)@) ==> chain_state_wf(final(self)@),
    {
        proof {
            if chain_state_wf(self@) {
                lemma_after_block_wf(self@, block);
            }
        }
        let n = self.blocks.len();
        if n > 0 && same_hash(&self.blocks[n - 1].hash, &block.parent_hash) {
            self.blocks.push(block);
        } else {
            self.process_side_chain_block(block);
        }
    }

    /// Drops the empty side chains, then opens a side chain with `block`.
    fn process_side_chain_block(&mut self, block: ChainBlock<B>)
        ensures
            final(self)@ == (BlockchainModel {
                blocks: old(self)@.blocks,
                side_chains: nonempty_chains(old(self)@.side_chains).push(seq![block]),
            }),
    {
        let ghost orig = chain_views(self.side_chains@);
        let mut rest: Vec<Vec<ChainBlock<B>>> = Vec::new();
        std::mem::swap(&mut rest, &mut self.side_chains);
        let mut kept: Vec<Vec<ChainBlock<B>>> = Vec::new();
        let ghost mut k: int = 0;
        assert(chain_views(rest@) =~= orig.skip(0));
        assert(orig.take(0) =~= Seq::<Seq<ChainBlock<B>>>::empty());
        assert(chain_views(kept@) =~= Seq::<Seq<ChainBlock<B>>>::empty());
        while rest.len() > 0
            invariant
                0 <= k <= orig.len(),
                rest.len() == orig.len() - k,
                chain_views(rest@) == orig.skip(k),
                chain_views(kept@) == nonempty_chains(orig.take(k)),
            decreases rest.len(),
        {
            let ghost old_rest = rest@;
            let chain = rest.remove(0);
            proof {
                assert(chain_views(old_rest)[0] == old_rest[0]@);
                assert(orig.skip(k)[0] == orig[k]);
                assert(chain@ == orig[k]);
                assert forall|j: int| 0 <= j < rest@.len() implies #[trigger] chain_views(rest@)[j]
                    == orig.skip(k + 1)[j] by {
                    assert(rest@[j] == old_rest[j + 1]);
                    assert(chain_views(old_rest)[j + 1] == orig.skip(k)[j + 1]);
                }
                assert(chain_views(rest@) =~= orig.skip(k + 1));
                assert(orig.take(k + 1).drop_last() =~= orig.take(k));
                assert(orig.take(k + 1).last() == orig[k]);
            }
            if chain.len() > 0 {
                let ghost before = kept@;
                kept.push(chain);
                assert(chain_views(kept@) =~= chain_views(before).push(chain@));
            }
            proof {
                k = k + 1;
            }
        }
        assert(orig.take(k) =~= orig);
        let ghost before = kept@;
        let mut opened: Vec<ChainBlock<B>> = Vec::new();
        opened.push(block);
        kept.push(opened);
        assert(chain_views(kept@) =~= chain_views(before).push(seq![block]));
        self.side_chains = kept;
    }

    /// The canonical chain.
    pub fn blocks(&self) -> (b: &Vec<ChainBlock<B>>)
        ensures
            b@ == self@.blocks,
    {
        &self.blocks
    }

    /// The number of side chains.
    pub fn side_chain_count(&self) -> (n: usize)
        ensures
            n == self@.side_chains.len(),
    {
        self.side_chains.len()
    }

    /// The number of blocks in side chain `i`.
    pub fn side_chain_len(&self, i: usize) -> (n: usize)
        requires
            i < self@.side_chains.len(),
        ensures
            n == self@.side_chains[i as int].len(),
    {
        self.side_chains[i].len()
    }
}

} // verus!
