//! Locating the last beacon block of an era file from its trailing slot
//! indices, without reading the whole file.
//!
//! An era file ends with two slot-index records: one over the block slots of
//! the era, then one over its state. Each index entry is the offset of the
//! slot's block, counted from the start of the block slot-index record; a
//! slot without a block has the offset of the start of the file.
use vstd::prelude::*;

verus! {

/// Size in bytes of the record header of an era file.
pub const ENTRY_HEADER_SIZE: u64 = 8;

/// Size in bytes of the block slot-index record: its header, the starting
/// slot, one offset for each of the 8192 slots of an era, and the count.
pub const SLOT_INDEX_BLOCK_ENTRY_SIZE: u64 = 65560;

/// Size in bytes of the state slot-index record: its header, the starting
/// slot, one offset and the count.
pub const SLOT_INDEX_STATE_ENTRY_SIZE: u64 = 32;

/// Why the last block of an era file cannot be located.
#[derive(Clone, Copy, Debug, PartialEq, Eq)]
pub enum EraIndexError {
    /// The block slot-index record read has the wrong size.
    SlotIndexSize { got: u64, expected: u64 },
    /// No slot of the era holds a block.
    NoBlock,
}

/// The byte range (both ends inclusive) of the block slot-index record in an
/// era file of `era_file_length` bytes: it comes right before the state
/// slot-index record that ends the file.
pub fn slot_index_block_range(era_file_length: u64) -> (range: (u64, u64))
    requires
        era_file_length >= SLOT_INDEX_BLOCK_ENTRY_SIZE + SLOT_INDEX_STATE_ENTRY_SIZE,
    ensures
        range.0 == era_file_length - (SLOT_INDEX_BLOCK_ENTRY_SIZE + SLOT_INDEX_STATE_ENTRY_SIZE),
        range.1 == era_file_length - SLOT_INDEX_STATE_ENTRY_SIZE - 1,
        range.1 - range.0 + 1 == SLOT_INDEX_BLOCK_ENTRY_SIZE,
{
    let start = era_file_length - (SLOT_INDEX_BLOCK_ENTRY_SIZE + SLOT_INDEX_STATE_ENTRY_SIZE);
    let end = era_file_length - SLOT_INDEX_STATE_ENTRY_SIZE - 1;
    (start, end)
}

/// Checks that the block slot-index record read has the size of one.
pub fn check_slot_index_block_len(len: u64) -> (res: Result<(), EraIndexError>)
    ensures
        res is Ok <==> len == SLOT_INDEX_BLOCK_ENTRY_SIZE,
        res is Err ==> res->Err_0 == (EraIndexError::SlotIndexSize {
            got: len,
            expected: SLOT_INDEX_BLOCK_ENTRY_SIZE,
        }),
{
    if len == SLOT_INDEX_BLOCK_ENTRY_SIZE {
        Ok(())
    } else {
        Err(EraIndexError::SlotIndexSize { got: len, expected: SLOT_INDEX_BLOCK_ENTRY_SIZE })
    }
}

/// The position of the last entry of `indices` that differs from `empty`.
pub open spec fn last_filled(indices: Seq<i64>, empty: int) -> Option<int>
    decreases indices.len(),
{
    if indices.len() == 0 {
        None
    } else if indices.last() != empty {
        Some(indices.len() - 1)
    } else {
        last_filled(indices.drop_last(), empty)
    }
}

proof fn lemma_last_filled_bounds(indices: Seq<i64>, empty: int)
    ensures
        last_filled(indices, empty) matches Some(i) ==> 0 <= i < indices.len() && indices[i]
            != empty,
    decreases indices.len(),
{
    if indices.len() > 0 && indices.last() == empty {
        lemma_last_filled_bounds(indices.drop_last(), empty);
    }
}

/// The slot of the last block in an era whose block slot index starts at
/// `starting_slot` and holds `indices`, with the offset of that block: the
/// last slot whose offset is not that of the start of a file of
/// `era_file_length` bytes.
pub fn last_block_in_slot_index(starting_slot: u64, indices: &Vec<i64>, era_file_length: u64) -> (res:
    Result<(u64, i64), EraIndexError>)
    requires
        era_file_length <= i64::MAX,
        starting_slot + indices.len() <= u64::MAX,
    ensures
        match last_filled(indices@, -era_file_length) {
            Some(i) => res == Ok::<(u64, i64), EraIndexError>(
                ((starting_slot + i) as u64, indices@[i]),
            ),
            None => res == Err::<(u64, i64), EraIndexError>(EraIndexError::NoBlock),
        },
{
    let beginning_of_file: i64 = -(era_file_length as i64);
    let mut found: Option<(u64, i64)> = None;
    let mut i: usize = 0;
    while i < indices.len()
        invariant
            i <= indices.len(),
            beginning_of_file == -era_file_length,
            starting_slot + indices.len() <= u64::MAX,
            match last_filled(indices@.take(i as int), -era_file_length) {
                Some(j) => found == Some(((starting_slot + j) as u64, indices@[j])),
                None => found is None,
            },
        decreases indices.len() - i,
    {
        proof {
            assert(indices@.take(i + 1).drop_last() =~= indices@.take(i as int));
            lemma_last_filled_bounds(indices@.take(i as int), -era_file_length);
        }
        let offset = indices[i];
        if offset != beginning_of_file {
            found = Some((starting_slot + i as u64, offset));
        }
        i = i + 1;
    }
    assert(indices@.take(i as int) =~= indices@);
    match found {
        Some(last) => Ok(last),
        None => Err(EraIndexError::NoBlock),
    }
}

/// Where the record of the block at `block_offset` (negative, counted from
/// the start of the block slot-index record at `slot_index_start`) begins in
/// the file.
pub fn block_entry_start(slot_index_start: u64, block_offset: i64) -> (start: u64)
    requires
        i64::MIN < block_offset <= 0,
        -block_offset <= slot_index_start,
    ensures
        start == slot_index_start + block_offset,
{
    let back: i64 = -block_offset;
    slot_index_start - back as u64
}

/// The byte range (both ends inclusive) of the record header that starts at
/// `entry_start`.
pub fn entry_header_range(entry_start: u64) -> (range: (u64, u64))
    requires
        entry_start + ENTRY_HEADER_SIZE - 1 <= u64::MAX,
    ensures
        range == (entry_start, (entry_start + ENTRY_HEADER_SIZE - 1) as u64),
{
    (entry_start, entry_start + (ENTRY_HEADER_SIZE - 1))
}

/// The byte range read for the whole record that starts at `entry_start`,
/// whose header announces a body of `body_length` bytes.
pub fn entry_range(entry_start: u64, body_length: u64) -> (range: (u64, u64))
    requires
        entry_start + ENTRY_HEADER_SIZE - 1 + body_length <= u64::MAX,
    ensures
        range == (entry_start, (entry_start + ENTRY_HEADER_SIZE - 1 + body_length) as u64),
{
    (entry_start, entry_start + (ENTRY_HEADER_SIZE - 1) + body_length)
}

} // verus!
