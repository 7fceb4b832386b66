//! Importing a chain from an RLP file: the file is the RLP encodings of the
//! blocks one after the other. Each block is an RLP list of the header, the
//! list of transactions, the list of uncles and, optionally, the list of
//! withdrawals, read by the decoders of `alloy_consensus` and `alloy_eips`;
//! the sender of every transaction must then be recoverable.
use crate::block_rlp::{
    block_header_decoding, decode_block_header, decode_recovered_senders, decode_transactions,
    decode_uncles, decode_withdrawals, recovered_senders, transactions_decoding, uncles_decoding,
    withdrawals_decoding,
};
use crate::rlp::{rlp_decode_header, rlp_header_decoding, rlp_list_header};
use vstd::prelude::*;
use vstd::slice::slice_to_vec;

verus! {

/// Why a chain file cannot be read into blocks.
#[derive(Clone, Copy, Debug, PartialEq, Eq)]
pub enum ChainRlpError {
    /// No RLP header can be read where the next block starts.
    InvalidHeader,
    /// The next item is an RLP string, not the list of a block.
    NotABlock,
    /// The next item is a list, but not a block: its header, transactions,
    /// uncles or withdrawals cannot be decoded, or they do not fill it.
    MalformedBlock,
    /// The sender of a transaction of the block cannot be recovered.
    InvalidSender,
}

/// How the optional withdrawals field of a block is read, once `consumed`
/// bytes of a payload of `payload_length` bytes are read.
#[derive(Clone, Copy, Debug, PartialEq, Eq)]
pub enum TrailingField {
    /// The payload is read: the block has no withdrawals.
    Absent,
    /// The next byte is the empty string standing for no withdrawals.
    Placeholder,
    /// The withdrawals list follows.
    Decode,
}

/// How the withdrawals field is read: absent once the payload is read; a
/// next byte `0x80` stands for no withdrawals; otherwise the list follows.
pub open spec fn trailing_field_of(consumed: nat, payload_length: nat, next: Seq<u8>) -> TrailingField {
    if consumed < payload_length {
        if next.len() > 0 && next[0] == 0x80 {
            TrailingField::Placeholder
        } else {
            TrailingField::Decode
        }
    } else {
        TrailingField::Absent
    }
}

/// How the withdrawals field is read: see `trailing_field_of`. `next` is the
/// rest of the buffer after the uncles.
pub fn trailing_withdrawals(consumed: usize, payload_length: usize, next: &[u8]) -> (field:
    TrailingField)
    ensures
        field == trailing_field_of(consumed as nat, payload_length as nat, next@),
{
    if consumed < payload_length {
        if next.len() > 0 && next[0] == 0x80 {
            TrailingField::Placeholder
        } else {
            TrailingField::Decode
        }
    } else {
        TrailingField::Absent
    }
}

/// What is left after the withdrawals field of a block, whose payload of
/// `payload_length` bytes began with `started` bytes left and has `r3` left
/// after the uncles.
pub open spec fn after_withdrawals(started: nat, payload_length: nat, r3: Seq<u8>) -> Option<
    Seq<u8>,
> {
    match trailing_field_of((started - r3.len()) as nat, payload_length, r3) {
        TrailingField::Absent => Some(r3),
        TrailingField::Placeholder => Some(r3.skip(1)),
        TrailingField::Decode => withdrawals_decoding(r3),
    }
}

/// Where the fields of a block read from a buffer stand: the buffer from the
/// transactions list on, from the uncles list on, and after the block.
pub struct BlockFields {
    pub transactions: Seq<u8>,
    pub uncles: Seq<u8>,
    pub rest: Seq<u8>,
}

/// The fields of the block at the start of `buf`, as the block's decoder reads
/// them: a list header, then the header, the transactions, the uncles and the
/// optional withdrawals, which must fill the list's payload exactly.
pub open spec fn block_fields(buf: Seq<u8>) -> Result<BlockFields, ChainRlpError> {
    match rlp_header_decoding(buf) {
        None => Err(ChainRlpError::InvalidHeader),
        Some((list, n, r0)) => if !list {
            Err(ChainRlpError::NotABlock)
        } else {
            match block_header_decoding(r0) {
                None => Err(ChainRlpError::MalformedBlock),
                Some(r1) => match transactions_decoding(r1) {
                    None => Err(ChainRlpError::MalformedBlock),
                    Some(r2) => match uncles_decoding(r2) {
                        None => Err(ChainRlpError::MalformedBlock),
                        Some(r3) => match after_withdrawals(r0.len(), n, r3) {
                            None => Err(ChainRlpError::MalformedBlock),
                            Some(r4) => if r0.len() - r4.len() == n {
                                Ok(BlockFields { transactions: r1, uncles: r2, rest: r4 })
                            } else {
                                Err(ChainRlpError::MalformedBlock)
                            },
                        },
                    },
                },
            }
        },
    }
}

/// Whether the uncles list at the start of `uncles` holds any uncle: an empty
/// list is the single byte `0xc0`.
pub open spec fn uncles_present(uncles: Seq<u8>) -> bool {
    uncles.len() > 0 && uncles[0] != 0xc0
}

/// Abstract contents of a `ProcessedBlock`.
pub struct BlockModel {
    pub encoded: Seq<u8>,
    pub senders: Seq<[u8; 20]>,
    pub has_uncles: bool,
}

/// A block read from a chain file.
pub struct ProcessedBlock {
    /// The block's RLP encoding.
    pub encoded: Vec<u8>,
    /// The sender of each of its transactions, in order.
    pub senders: Vec<[u8; 20]>,
    /// Whether its uncles list holds any uncle.
    pub has_uncles: bool,
}

/// The contents of a `ProcessedBlock`.
pub open spec fn block_model(b: ProcessedBlock) -> BlockModel {
    BlockModel { encoded: b.encoded@, senders: b.senders@, has_uncles: b.has_uncles }
}

/// The block at the start of `buf`: its encoding, the senders of its
/// transactions and whether it has uncles; or why it cannot be read, a block
/// that decodes failing only where a sender cannot be recovered.
pub open spec fn block_read(buf: Seq<u8>) -> Result<BlockModel, ChainRlpError> {
    match block_fields(buf) {
        Err(e) => Err(e),
        Ok(f) => if f.rest.len() >= buf.len() {
            Err(ChainRlpError::InvalidHeader)
        } else {
            match recovered_senders(f.transactions) {
                None => Err(ChainRlpError::InvalidSender),
                Some(senders) => Ok(
                    BlockModel {
                        encoded: buf.take(buf.len() - f.rest.len()),
                        senders,
                        has_uncles: uncles_present(f.uncles),
                    },
                ),
            }
        },
    }
}

/// The blocks of a chain file, in order, or why the file cannot be read into
/// them: see `block_read`.
pub open spec fn chain_blocks(buf: Seq<u8>) -> Result<Seq<BlockModel>, ChainRlpError>
    decreases buf.len(),
{
    if buf.len() == 0 {
        Ok(Seq::empty())
    } else {
        match block_read(buf) {
            Err(e) => Err(e),
            Ok(b) => if 0 < b.encoded.len() <= buf.len() {
                match chain_blocks(buf.skip(b.encoded.len() as int)) {
                    Ok(blocks) => Ok(seq![b] + blocks),
                    Err(e) => Err(e),
                }
            } else {
                Err(ChainRlpError::InvalidHeader)
            },
        }
    }
}

/// `done` put in front of the blocks of `rest`.
pub open spec fn prepend_blocks(done: Seq<BlockModel>, rest: Result<Seq<BlockModel>, ChainRlpError>) -> Result<
    Seq<BlockModel>,
    ChainRlpError,
> {
    match rest {
        Ok(blocks) => Ok(done + blocks),
        Err(e) => Err(e),
    }
}

/// The encodings of `blocks` one after the other.
pub open spec fn concat_encodings(blocks: Seq<BlockModel>) -> Seq<u8>
    decreases blocks.len(),
{
    if blocks.len() == 0 {
        Seq::empty()
    } else {
        blocks[0].encoded + concat_encodings(blocks.skip(1))
    }
}

/// Reading a chain file loses and adds no bytes: the blocks' encodings, one
/// after the other, are the file.
pub proof fn lemma_chain_blocks_cover(buf: Seq<u8>)
    requires
        chain_blocks(buf) is Ok,
    ensures
        concat_encodings(chain_blocks(buf)->Ok_0) == buf,
    decreases buf.len(),
{
    if buf.len() > 0 {
        let b = block_read(buf)->Ok_0;
        let k = b.encoded.len() as int;
        lemma_chain_blocks_cover(buf.skip(k));
        let blocks = chain_blocks(buf)->Ok_0;
        assert(blocks.skip(1) =~= chain_blocks(buf.skip(k))->Ok_0);
        assert(b.encoded =~= buf.take(k));
        assert(buf.take(k) + buf.skip(k) =~= buf);
    } else {
        assert(chain_blocks(buf)->Ok_0 =~= Seq::<BlockModel>::empty());
    }
}

/// Checks that the fields read, `consumed` bytes, fill the block's payload of
/// `payload_length` bytes exactly.
pub fn check_block_length(consumed: usize, payload_length: usize) -> (res: Result<(), ChainRlpError>)
    ensures
        res is Ok <==> consumed == payload_length,
        res is Err ==> res->Err_0 == ChainRlpError::MalformedBlock,
{
    if consumed == payload_length {
        Ok(())
    } else {
        Err(ChainRlpError::MalformedBlock)
    }
}

/// Whether the uncles list at the start of `uncles` holds any uncle: see
/// `uncles_present`.
pub fn has_uncles(uncles: &[u8]) -> (b: bool)
    ensures
        b == uncles_present(uncles@),
{
    uncles.len() > 0 && uncles[0] != 0xc0
}

/// Reads the block at the start of `cur`: the block, and what is left of
/// `cur` after it.
fn read_block(cur: &[u8]) -> (res: Result<(ProcessedBlock, &[u8]), ChainRlpError>)
    ensures
        match block_read(cur@) {
            Ok(b) => res is Ok && block_model(res->Ok_0.0) == b && res->Ok_0.1@ == cur@.skip(
                b.encoded.len() as int,
            ) && 0 < b.encoded.len() <= cur@.len(),
            Err(e) => res is Err && res->Err_0 == e,
        },
{
    let (list, n, r0) = match rlp_decode_header(cur) {
        Ok(h) => h,
        Err(_) => {
            return Err(ChainRlpError::InvalidHeader);
        },
    };
    if !list {
        return Err(ChainRlpError::NotABlock);
    }
    proof {
        assert(rlp_header_decoding(cur@) == Some((list, n as nat, r0@)));
        assert(cur@ == rlp_list_header(n as nat) + r0@);
        assert(rlp_list_header(n as nat).len() >= 1);
    }
    let started = r0.len();
    let r1 = match decode_block_header(r0) {
        Some(r) => r,
        None => {
            return Err(ChainRlpError::MalformedBlock);
        },
    };
    let r2 = match decode_transactions(r1) {
        Some(r) => r,
        None => {
            return Err(ChainRlpError::MalformedBlock);
        },
    };
    let r3 = match decode_uncles(r2) {
        Some(r) => r,
        None => {
            return Err(ChainRlpError::MalformedBlock);
        },
    };
    let r4 = match trailing_withdrawals(started - r3.len(), n, r3) {
        TrailingField::Absent => r3,
        TrailingField::Placeholder => {
            let (_, after) = r3.split_at(1);
            after
        },
        TrailingField::Decode => match decode_withdrawals(r3) {
            Some(r) => r,
            None => {
                return Err(ChainRlpError::MalformedBlock);
            },
        },
    };
    match check_block_length(started - r4.len(), n) {
        Ok(()) => {},
        Err(e) => {
            return Err(e);
        },
    }
    proof {
        assert(r0@.len() == started);
        assert(block_fields(cur@) == Ok::<BlockFields, ChainRlpError>(
            BlockFields { transactions: r1@, uncles: r2@, rest: r4@ },
        ));
    }
    let senders = match decode_recovered_senders(r1) {
        Some(s) => s,
        None => {
            return Err(ChainRlpError::InvalidSender);
        },
    };
    let item_len = cur.len() - r4.len();
    let (item, next) = cur.split_at(item_len);
    proof {
        assert(next@ =~= cur@.skip(item_len as int));
    }
    let block = ProcessedBlock { encoded: slice_to_vec(item), senders, has_uncles: has_uncles(r2) };
    Ok((block, next))
}

/// The blocks read from a chain file.
pub struct ChainRlpReader {
    pub blocks: Vec<ProcessedBlock>,
}

/// `blocks` hold exactly the blocks of `models`, in order.
pub open spec fn blocks_are(blocks: Seq<ProcessedBlock>, models: Seq<BlockModel>) -> bool {
    blocks.len() == models.len() && forall|i: int|
        0 <= i < blocks.len() ==> #[trigger] block_model(blocks[i]) == models[i]
}

impl ChainRlpReader {
    /// Reads the contents of a chain file into its blocks, in order, each
    /// with its transactions' senders: see `chain_blocks`. Reading stops at
    /// the first block that cannot be decoded, or one of whose senders cannot
    /// be recovered.
    pub fn new(chain_rlp: &[u8]) -> (res: Result<ChainRlpReader, ChainRlpError>)
        ensures
            match chain_blocks(chain_rlp@) {
                Ok(models) => res is Ok && blocks_are(res->Ok_0.blocks@, models),
                Err(e) => res is Err && res->Err_0 == e,
            },
    {
        let mut blocks: Vec<ProcessedBlock> = Vec::new();
        let mut cur: &[u8] = chain_rlp;
        let ghost mut done: Seq<BlockModel> = Seq::empty();
        while cur.len() > 0
            invariant
                chain_blocks(chain_rlp@) == prepend_blocks(done, chain_blocks(cur@)),
                blocks_are(blocks@, done),
            decreases cur@.len(),
        {
            let (block, next) = match read_block(cur) {
                Ok(b) => b,
                Err(e) => {
                    return Err(e);
                },
            };
            let ghost before = done;
            let ghost b = block_model(block);
            proof {
                assert(chain_blocks(cur@) == prepend_blocks(seq![b], chain_blocks(next@)));
                match chain_blocks(next@) {
                    Ok(bs) => {
                        assert(before + (seq![b] + bs) =~= before.push(b) + bs);
                    },
                    Err(_) => {},
                }
                done = before.push(b);
            }
            blocks.push(block);
            proof {
                assert forall|i: int| 0 <= i < blocks@.len() implies #[trigger] block_model(
                    blocks@[i],
                ) == done[i] by {
                    if i < before.len() {
                        assert(block_model(blocks@[i]) == before[i]);
                    }
                }
            }
            cur = next;
        }
        proof {
            assert(done + Seq::<BlockModel>::empty() =~= done);
        }
        Ok(ChainRlpReader { blocks })
    }
}

/// Why blocks cannot be imported.
#[derive(Clone, Copy, Debug, PartialEq, Eq)]
pub enum ImportError {
    /// Blocks were already executed: an import starts from genesis.
    DatabaseNotEmpty,
}

impl ImportError {
    /// The message this error is reported with.
    pub fn message(&self) -> (m: String)
        ensures
            m@ == "Cannot import genesis file, database is not empty"@,
    {
        "Cannot import genesis file, database is not empty".to_string()
    }
}

/// An import of a chain file into an empty database.
pub struct ImportBlocks {}

/// What an import executes: the blocks of the chain file, in file order, and
/// whether the executed blocks are kept.
pub struct ImportRun {
    pub blocks: Vec<ProcessedBlock>,
    pub save_blocks: bool,
}

impl ImportBlocks {
    /// Prepares an import into a database whose next block to execute is
    /// `next_block_number`: it is refused unless no block was executed yet.
    pub fn new(next_block_number: u64) -> (res: Result<ImportBlocks, ImportError>)
        ensures
            res is Ok <==> next_block_number == 0,
            res is Err ==> res->Err_0 == ImportError::DatabaseNotEmpty,
    {
        if next_block_number == 0 {
            Ok(ImportBlocks {})
        } else {
            Err(ImportError::DatabaseNotEmpty)
        }
    }

    /// Reads the chain file `chain_rlp` into the blocks to execute, in order,
    /// as `ChainRlpReader::new` does; each is then executed, and kept where
    /// `save_blocks` asks for it.
    pub fn run(&mut self, chain_rlp: &[u8], save_blocks: bool) -> (res: Result<ImportRun, ChainRlpError>)
        ensures
            match chain_blocks(chain_rlp@) {
                Ok(models) => res is Ok && res->Ok_0.save_blocks == save_blocks && blocks_are(
                    res->Ok_0.blocks@,
                    models,
                ),
                Err(e) => res is Err && res->Err_0 == e,
            },
    {
        match ChainRlpReader::new(chain_rlp) {
            Ok(reader) => Ok(ImportRun { blocks: reader.blocks, save_blocks }),
            Err(e) => Err(e),
        }
    }
}

} // verus!
