use trin_execution::blockchain::{Blockchain, ChainBlock};

fn block(hash: u8, parent: u8) -> ChainBlock<u32> {
    ChainBlock { hash: [hash; 32], parent_hash: [parent; 32], block: hash as u32 }
}

#[test]
fn blocks_on_an_empty_chain_open_side_chains() {
    let mut chain: Blockchain<u32> = Blockchain::new();
    assert_eq!(chain.side_chain_count(), 0);
    chain.process_block(block(1, 0));
    chain.process_block(block(2, 1));
    assert_eq!(chain.blocks().len(), 0);
    assert_eq!(chain.side_chain_count(), 2);
    assert_eq!(chain.side_chain_len(0), 1);
    assert_eq!(chain.side_chain_len(1), 1);
}
