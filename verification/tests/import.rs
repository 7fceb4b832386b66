use alloy_consensus::private::alloy_primitives::{Signature, U256};
use alloy_consensus::transaction::SignerRecoverable;
use alloy_consensus::{Signed, TxEnvelope, TxLegacy};
use trin_execution::import::{check_block_length, has_uncles, ProcessedBlock, trailing_withdrawals, TrailingField, ChainRlpError, ChainRlpReader, ImportBlocks, ImportError};

fn list(payload: &[u8]) -> Vec<u8> {
    let mut out = Vec::new();
    alloy_rlp::Header { list: true, payload_length: payload.len() }.encode(&mut out);
    out.extend_from_slice(payload);
    out
}

fn header(number: u64) -> Vec<u8> {
    let header = alloy_consensus::Header { number, ..Default::default() };
    alloy_rlp::encode(&header)
}

fn transactions(txs: Vec<TxEnvelope>) -> Vec<u8> {
    alloy_rlp::encode(&txs)
}

fn legacy_tx(r: U256, s: U256) -> TxEnvelope {
    let tx = TxLegacy { nonce: 1, gas_limit: 21_000, ..Default::default() };
    TxEnvelope::Legacy(Signed::new_unhashed(tx, Signature::new(r, s, false)))
}

/// A block with the given header and transactions, no uncles and, where
/// asked, an empty withdrawals list.
fn block(header: Vec<u8>, txs: Vec<TxEnvelope>, withdrawals: bool) -> Vec<u8> {
    let mut payload = [header, transactions(txs), list(&[])].concat();
    if withdrawals {
        payload.extend_from_slice(&list(&[]));
    }
    list(&payload)
}

fn encodings(blocks: &[ProcessedBlock]) -> Vec<Vec<u8>> {
    blocks.iter().map(|b| b.encoded.clone()).collect()
}

#[test]
fn chain_file_splits_into_its_blocks() {
    let a = block(header(1), vec![], false);
    let b = block(header(2), vec![], true);
    let c = block(header(3), vec![], false);
    let file = [a.clone(), b.clone(), c.clone()].concat();
    let reader = ChainRlpReader::new(&file).unwrap();
    assert_eq!(encodings(&reader.blocks), vec![a, b, c]);
    assert!(reader.blocks.iter().all(|b| b.senders.is_empty() && !b.has_uncles));
}

#[test]
fn empty_chain_file_has_no_blocks() {
    assert_eq!(ChainRlpReader::new(&[]).unwrap().blocks.len(), 0);
}

#[test]
fn strings_are_not_blocks() {
    let file = [block(header(1), vec![], false), vec![0x82, 0xaa, 0xbb]].concat();
    assert!(matches!(ChainRlpReader::new(&file), Err(ChainRlpError::NotABlock)));
}

#[test]
fn empty_list_is_not_a_block() {
    assert!(matches!(ChainRlpReader::new(&[0xc0]), Err(ChainRlpError::MalformedBlock)));
}

#[test]
fn header_must_decode() {
    // A header list holding two bytes instead of the header fields.
    let bad = list(&[list(&[0x01, 0x02]), list(&[]), list(&[])].concat());
    assert!(matches!(ChainRlpReader::new(&bad), Err(ChainRlpError::MalformedBlock)));
}

#[test]
fn block_fields_must_fill_the_list() {
    // Two fields only.
    let two = list(&[header(1), list(&[])].concat());
    assert!(matches!(ChainRlpReader::new(&two), Err(ChainRlpError::MalformedBlock)));
    // A field after the withdrawals.
    let five = list(&[header(1), list(&[]), list(&[]), list(&[]), list(&[])].concat());
    assert!(matches!(ChainRlpReader::new(&five), Err(ChainRlpError::MalformedBlock)));
}

#[test]
fn empty_string_stands_for_no_withdrawals() {
    let b = list(&[header(1), list(&[]), list(&[]), vec![0x80]].concat());
    assert_eq!(encodings(&ChainRlpReader::new(&b).unwrap().blocks), vec![b.clone()]);
}

#[test]
fn truncated_block_is_an_invalid_header() {
    let mut file = block(header(1), vec![], false);
    file.pop();
    assert!(matches!(ChainRlpReader::new(&file), Err(ChainRlpError::InvalidHeader)));
}

#[test]
fn senders_must_recover() {
    // r is the x-coordinate of the curve's generator: a valid signature point.
    let gx = U256::from_str_radix(
        "79be667ef9dcbbac55a06295ce870b07029bfcdb2dce28d959f2815b16f81798",
        16,
    )
    .unwrap();
    let tx_a = legacy_tx(gx, U256::from(1u64));
    let tx_b = legacy_tx(gx, U256::from(2u64));
    let sender_a = tx_a.recover_signer().unwrap().into_array();
    let sender_b = tx_b.recover_signer().unwrap().into_array();
    let good = block(header(1), vec![tx_a, tx_b], false);
    let reader = ChainRlpReader::new(&good).unwrap();
    assert_eq!(encodings(&reader.blocks), vec![good.clone()]);
    assert_eq!(reader.blocks[0].senders, vec![sender_a, sender_b]);
    let bad = block(header(1), vec![legacy_tx(U256::ZERO, U256::ZERO)], false);
    assert!(matches!(ChainRlpReader::new(&bad), Err(ChainRlpError::InvalidSender)));
}

#[test]
fn withdrawals_field_reading() {
    assert_eq!(trailing_withdrawals(10, 10, &[0x80]), TrailingField::Absent);
    assert_eq!(trailing_withdrawals(5, 10, &[0x80, 1]), TrailingField::Placeholder);
    assert_eq!(trailing_withdrawals(5, 10, &[0xc0]), TrailingField::Decode);
    assert_eq!(trailing_withdrawals(5, 10, &[]), TrailingField::Decode);
}

#[test]
fn block_length_check() {
    assert_eq!(check_block_length(4, 4), Ok(()));
    assert_eq!(check_block_length(3, 4), Err(ChainRlpError::MalformedBlock));
}

#[test]
fn import_needs_an_empty_database() {
    assert!(ImportBlocks::new(0).is_ok());
    assert!(matches!(ImportBlocks::new(1), Err(ImportError::DatabaseNotEmpty)));
}


#[test]
fn import_error_message() {
    assert_eq!(
        ImportError::DatabaseNotEmpty.message(),
        "Cannot import genesis file, database is not empty"
    );
}

#[test]
fn import_run_hands_over_the_blocks_in_order() {
    let a = block(header(1), vec![], false);
    let b = block(header(2), vec![], false);
    let mut import = ImportBlocks::new(0).unwrap();
    let run = import.run(&[a.clone(), b.clone()].concat(), true).unwrap();
    assert_eq!(encodings(&run.blocks), vec![a, b]);
    assert!(run.save_blocks);
    assert!(matches!(import.run(&[0xc0], false), Err(ChainRlpError::MalformedBlock)));
}

#[test]
fn uncles_are_noted() {
    let b = list(&[header(5), list(&[]), list(&header(4))].concat());
    let reader = ChainRlpReader::new(&b).unwrap();
    assert!(reader.blocks[0].has_uncles);
    assert!(!has_uncles(&[0xc0]));
    assert!(has_uncles(&[0xc1, 0xc0]));
}

#[test]
fn a_bad_sender_stops_before_later_blocks() {
    let bad = block(header(1), vec![legacy_tx(U256::ZERO, U256::ZERO)], false);
    let file = [bad, vec![0xc0]].concat();
    assert!(matches!(ChainRlpReader::new(&file), Err(ChainRlpError::InvalidSender)));
}
