//! Layout of the executed blocks in the key-value store: an index from block
//! number to block hash, and the encoded blocks by hash, both under the
//! prefix "block".
use crate::text::{decimal_string, decimal_text, hash_string, hash_text};
use vstd::bytes::{spec_u64_to_le_bytes, u64_to_le_bytes};
use vstd::prelude::*;
use vstd::string::StringExecFns;

verus! {

/// The prefix of every key of the block store: "block" in ASCII.
pub const BLOCK_KEY_PREFIX: [u8; 5] = [0x62u8, 0x6cu8, 0x6fu8, 0x63u8, 0x6bu8];

/// The big-endian bytes of `n`.
pub open spec fn u64_be_bytes(n: u64) -> Seq<u8> {
    spec_u64_to_le_bytes(n).reverse()
}

/// The key under which the hash of block `block_number` is stored.
pub open spec fn block_hash_key_of(block_number: u64) -> Seq<u8> {
    BLOCK_KEY_PREFIX@ + u64_be_bytes(block_number)
}

/// The key under which the block with hash `block_hash` is stored.
pub open spec fn block_key_of(block_hash: [u8; 32]) -> Seq<u8> {
    BLOCK_KEY_PREFIX@ + block_hash@
}

/// The two kinds of keys of the block store never meet, and each names one
/// block: the number index and the block records share no key, distinct
/// numbers have distinct index keys, and distinct hashes distinct record keys.
pub proof fn lemma_block_keys_distinct(a: u64, b: u64, h1: [u8; 32], h2: [u8; 32])
    ensures
        block_hash_key_of(a) != block_key_of(h1),
        block_hash_key_of(a) == block_hash_key_of(b) ==> a == b,
        block_key_of(h1) == block_key_of(h2) ==> h1 == h2,
{
    vstd::bytes::lemma_auto_spec_u64_to_from_le_bytes();
    assert(block_hash_key_of(a).len() == 13);
    assert(block_key_of(h1).len() == 37);
    if block_hash_key_of(a) == block_hash_key_of(b) {
        assert(u64_be_bytes(a) =~= block_hash_key_of(a).skip(5));
        assert(u64_be_bytes(b) =~= block_hash_key_of(b).skip(5));
        assert(spec_u64_to_le_bytes(a) =~= u64_be_bytes(a).reverse());
        assert(spec_u64_to_le_bytes(b) =~= u64_be_bytes(b).reverse());
    }
    if block_key_of(h1) == block_key_of(h2) {
        assert(h1@ =~= block_key_of(h1).skip(5));
        assert(h2@ =~= block_key_of(h2).skip(5));
        assert(h1 =~= h2);
    }
}

/// Why a block cannot be served from the store.
#[derive(Clone, Copy, Debug, PartialEq, Eq)]
pub enum BlockStorageError {
    /// Blocks with all their transaction bodies are not served yet.
    HydratedTransactions,
    /// No block with this number is stored.
    NumberNotFound(u64),
    /// No block with this hash is stored.
    HashNotFound([u8; 32]),
}

/// The message of a block store error.
pub open spec fn block_storage_error_text(e: BlockStorageError) -> Seq<char> {
    match e {
        BlockStorageError::HydratedTransactions => "replying with all transaction bodies is not supported yet"@,
        BlockStorageError::NumberNotFound(n) => "Block with number "@ + decimal_text(n as nat)
            + " not found in the database"@,
        BlockStorageError::HashNotFound(h) => "Block with hash "@ + hash_text(h)
            + " not found in the database"@,
    }
}

impl BlockStorageError {
    /// The message this error is answered with.
    pub fn message(&self) -> (m: String)
        ensures
            m@ == block_storage_error_text(*self),
    {
        match self {
            BlockStorageError::HydratedTransactions => {
                "replying with all transaction bodies is not supported yet".to_string()
            },
            BlockStorageError::NumberNotFound(n) => {
                let mut m = String::from_str("Block with number ");
                m.append(decimal_string(*n).as_str());
                m.append(" not found in the database");
                m
            },
            BlockStorageError::HashNotFound(h) => {
                let mut m = String::from_str("Block with hash ");
                m.append(hash_string(h).as_str());
                m.append(" not found in the database");
                m
            },
        }
    }
}

/// The store of executed blocks.
pub struct BlockStorage {}

impl BlockStorage {
    /// The key under which the hash of block `block_number` is stored:
    /// the prefix, then the number in big-endian.
    pub fn block_hash_key(block_number: u64) -> (key: Vec<u8>)
        ensures
            key@ == block_hash_key_of(block_number),
    {
        let le = u64_to_le_bytes(block_number);
        let mut key: Vec<u8> = Vec::new();
        let mut i: usize = 0;
        while i < 5
            invariant
                i <= 5,
                key@ == BLOCK_KEY_PREFIX@.take(i as int),
            decreases 5 - i,
        {
            key.push(BLOCK_KEY_PREFIX[i]);
            assert(BLOCK_KEY_PREFIX@.take(i + 1) =~= BLOCK_KEY_PREFIX@.take(i as int).push(
                BLOCK_KEY_PREFIX[i as int],
            ));
            i = i + 1;
        }
        assert(BLOCK_KEY_PREFIX@.take(5) =~= BLOCK_KEY_PREFIX@);
        let mut j: usize = 8;
        while j > 0
            invariant
                j <= 8,
                le@.len() == 8,
                le@ == spec_u64_to_le_bytes(block_number),
                key@ == BLOCK_KEY_PREFIX@ + le@.reverse().take(8 - j),
            decreases j,
        {
            j = j - 1;
            key.push(le[j]);
            assert(le@.reverse().take(8 - j) =~= le@.reverse().take(8 - j - 1).push(le@[j as int]));
        }
        assert(le@.reverse().take(8) =~= le@.reverse());
        key
    }

    /// The key under which the block with hash `block_hash` is stored: the
    /// prefix, then the hash.
    pub fn block_key(block_hash: &[u8; 32]) -> (key: Vec<u8>)
        ensures
            key@ == block_key_of(*block_hash),
    {
        let mut key: Vec<u8> = Vec::new();
        let mut i: usize = 0;
        while i < 5
            invariant
                i <= 5,
                key@ == BLOCK_KEY_PREFIX@.take(i as int),
            decreases 5 - i,
        {
            key.push(BLOCK_KEY_PREFIX[i]);
            assert(BLOCK_KEY_PREFIX@.take(i + 1) =~= BLOCK_KEY_PREFIX@.take(i as int).push(
                BLOCK_KEY_PREFIX[i as int],
            ));
            i = i + 1;
        }
        let mut j: usize = 0;
        while j < 32
            invariant
                j <= 32,
                key@ == BLOCK_KEY_PREFIX@.take(5) + block_hash@.take(j as int),
            decreases 32 - j,
        {
            key.push(block_hash[j]);
            assert(block_hash@.take(j + 1) =~= block_hash@.take(j as int).push(block_hash[j as int]));
            j = j + 1;
        }
        assert(BLOCK_KEY_PREFIX@.take(5) =~= BLOCK_KEY_PREFIX@);
        assert(block_hash@.take(32) =~= block_hash@);
        key
    }

    /// Checks a request for a block: blocks are served with the hashes of
    /// their transactions only.
    pub fn check_request(hydrated_transactions: bool) -> (res: Result<(), BlockStorageError>)
        ensures
            res is Ok <==> !hydrated_transactions,
            res is Err ==> res->Err_0 == BlockStorageError::HydratedTransactions,
    {
        if hydrated_transactions {
            Err(BlockStorageError::HydratedTransactions)
        } else {
            Ok(())
        }
    }

    /// The block hash read from the number index for block `block_number`,
    /// or the error when nothing is stored there.
    pub fn block_hash_from_index(stored: Option<&[u8; 32]>, block_number: u64) -> (res: Result<
        [u8; 32],
        BlockStorageError,
    >)
        ensures
            match stored {
                Some(h) => res == Ok::<[u8; 32], BlockStorageError>(*h),
                None => res == Err::<[u8; 32], BlockStorageError>(
                    BlockStorageError::NumberNotFound(block_number),
                ),
            },
    {
        match stored {
            Some(h) => Ok(*h),
            None => Err(BlockStorageError::NumberNotFound(block_number)),
        }
    }
}

} // verus!
