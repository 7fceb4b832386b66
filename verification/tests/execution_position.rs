use trin_execution::execution_position::version_from_field;
use trin_execution::execution_position::{
    ExecutionPositionError, ExecutionPositionV1, ExecutionPositionV2, ForkchoiceState,
    SyncStatus, EMPTY_ROOT_HASH, ZERO_HASH,
};

fn v1_default_record() -> Vec<u8> {
    let mut r = vec![0xe5u8, 0x01, 0xa0];
    r.extend_from_slice(&EMPTY_ROOT_HASH);
    r.extend_from_slice(&[0x80, 0x80, 0x80]);
    r
}

fn v2_default_record() -> Vec<u8> {
    let mut r = vec![0xf8u8, 0x88, 0x02, 0xa0];
    r.extend_from_slice(&EMPTY_ROOT_HASH);
    r.extend_from_slice(&[0x80, 0x80, 0x80]);
    for _ in 0..3 {
        r.push(0xa0);
        r.extend_from_slice(&ZERO_HASH);
    }
    r
}

#[test]
fn test_execution_position_v1() {
    let execution_position = ExecutionPositionV1::default();
    let encoded = execution_position.encode();
    let decoded = ExecutionPositionV1::decode(encoded.as_slice()).unwrap();
    assert_eq!(execution_position, decoded);
}

#[test]
fn test_execution_position_v2() {
    let execution_position = ExecutionPositionV2::default();
    let encoded = execution_position.encode();
    let decoded = ExecutionPositionV2::decode(encoded.as_slice()).unwrap();
    assert_eq!(execution_position, decoded);
}

#[test]
fn test_execution_position_v2_db() {
    // The store is a single value under the position key.
    let mut stored: Option<Vec<u8>> = None;
    let mut execution_position =
        ExecutionPositionV2::initialize_from_db_value(stored.as_deref()).unwrap();
    assert_eq!(execution_position.version(), 2);
    assert_eq!(execution_position.next_block_number(), 0);
    assert_eq!(execution_position.state_root(), EMPTY_ROOT_HASH);

    stored = Some(execution_position.update_position(1, [1; 32]));
    let mut execution_position =
        ExecutionPositionV2::initialize_from_db_value(stored.as_deref()).unwrap();
    assert_eq!(execution_position.version(), 2);
    assert_eq!(execution_position.next_block_number(), 2);
    assert_eq!(execution_position.state_root(), [1; 32]);

    let fork_choice_state = ForkchoiceState {
        head_block_hash: [1; 32],
        safe_block_hash: [2; 32],
        finalized_block_hash: [3; 32],
    };
    stored = Some(execution_position.update_fork_choice_state(fork_choice_state));
    let execution_position =
        ExecutionPositionV2::initialize_from_db_value(stored.as_deref()).unwrap();
    assert_eq!(execution_position.head_block_hash(), [1; 32]);
    assert_eq!(execution_position.safe_block_hash(), [2; 32]);
    assert_eq!(execution_position.finalized_block_hash(), [3; 32]);
}

#[test]
fn test_update_from_v1_to_v2_execution_position() {
    let stored = ExecutionPositionV1::default().encode();
    let execution_position =
        ExecutionPositionV2::initialize_from_db_value(Some(stored.as_slice())).unwrap();
    assert_eq!(execution_position.version(), 2);
    assert_eq!(execution_position.next_block_number(), 0);
    assert_eq!(execution_position.state_root(), EMPTY_ROOT_HASH);
}

#[test]
fn default_records_have_the_rlp_layout() {
    assert_eq!(ExecutionPositionV1::default().encode(), v1_default_record());
    assert_eq!(ExecutionPositionV2::default().encode(), v2_default_record());
}

#[test]
fn default_record_matches_alloy_list_encoding() {
    let fields: Vec<Vec<u8>> = vec![
        alloy_rlp::encode(2u64),
        alloy_rlp::encode(EMPTY_ROOT_HASH),
        alloy_rlp::encode(0u64),
        alloy_rlp::encode(0u64),
        alloy_rlp::encode(0u64),
        alloy_rlp::encode(ZERO_HASH),
        alloy_rlp::encode(ZERO_HASH),
        alloy_rlp::encode(ZERO_HASH),
    ];
    let payload: Vec<u8> = fields.concat();
    let mut expected = Vec::new();
    alloy_rlp::Header { list: true, payload_length: payload.len() }.encode(&mut expected);
    expected.extend_from_slice(&payload);
    assert_eq!(ExecutionPositionV2::default().encode(), expected);
}

#[test]
fn update_position_record_reads_back() {
    let mut p = ExecutionPositionV2::default();
    let record = p.update_position(1_000_000, [7; 32]);
    let back = ExecutionPositionV2::decode(&record).unwrap();
    assert_eq!(back, p);
    assert_eq!(back.next_block_number(), 1_000_001);
    assert_eq!(back.state_root(), [7; 32]);
    assert_eq!(back.previous_block_number(), 1_000_000);
}

#[test]
fn set_latest_block_number_record_reads_back() {
    let mut p = ExecutionPositionV2::default();
    let record = p.set_latest_block_number(0x1234_5678_9abc);
    let back = ExecutionPositionV2::initialize_from_db_value(Some(record.as_slice())).unwrap();
    assert_eq!(back.latest_block_number(), 0x1234_5678_9abc);
    assert_eq!(back, p);
}

#[test]
fn decode_rejects_truncated_record() {
    let record = ExecutionPositionV2::default().encode();
    assert!(ExecutionPositionV2::decode(&record[..record.len() - 1]).is_err());
    assert!(ExecutionPositionV2::decode(&[]).is_err());
}

#[test]
fn decode_leaves_trailing_bytes() {
    let mut record = ExecutionPositionV2::default().encode();
    record.extend_from_slice(&[1, 2, 3]);
    assert_eq!(
        ExecutionPositionV2::decode(&record).unwrap(),
        ExecutionPositionV2::default()
    );
}

#[test]
fn unknown_version_is_refused() {
    // A version 3 record: same layout as version 2.
    let mut record = v2_default_record();
    record[2] = 0x03;
    assert_eq!(
        ExecutionPositionV2::initialize_from_db_value(Some(record.as_slice())),
        Err(ExecutionPositionError::InvalidVersion(3))
    );
}

#[test]
fn version_field_of_eight_bytes_is_little_endian() {
    // A version field of eight bytes is read as a little-endian number: here 2.
    let mut payload = vec![0x88u8, 2, 0, 0, 0, 0, 0, 0, 0];
    payload.push(0xa0);
    payload.extend_from_slice(&EMPTY_ROOT_HASH);
    let mut record = vec![0xc0 + payload.len() as u8];
    record.extend_from_slice(&payload);
    // The version reads as 2 but the record is not a canonical version 2 record.
    assert_eq!(
        ExecutionPositionV2::initialize_from_db_value(Some(record.as_slice())),
        Err(ExecutionPositionError::Record)
    );
}

#[test]
fn version_field_of_other_length_has_no_version() {
    // The version field is the empty string.
    let mut record = v2_default_record();
    record[2] = 0x80;
    assert_eq!(ExecutionPositionV2::try_initialize_from_db_value(Some(record.as_slice())), None);
}

#[test]
fn missing_list_header_is_a_position_header_error() {
    assert_eq!(
        ExecutionPositionV2::try_initialize_from_db_value(Some(&[0xb9u8][..])),
        Some(Err(ExecutionPositionError::PositionHeader(alloy_rlp::Error::InputTooShort)))
    );
}

#[test]
fn upgrade_from_v1_keeps_numbers_and_zeroes_hashes() {
    let p = ExecutionPositionV2::from(ExecutionPositionV1::default());
    assert_eq!(p, ExecutionPositionV2::default());
}

#[test]
fn sync_status_reports_progress() {
    let mut p = ExecutionPositionV2::default();
    assert_eq!(p.sync_status(), SyncStatus::NotSyncing);
    p.set_latest_block_number(10);
    p.update_position(4, [0; 32]);
    assert_eq!(
        p.sync_status(),
        SyncStatus::Syncing { starting_block: 0, current_block: 4, highest_block: 10 }
    );
    p.update_position(10, [0; 32]);
    assert_eq!(p.sync_status(), SyncStatus::NotSyncing);
}

#[test]
fn previous_block_number_saturates() {
    assert_eq!(ExecutionPositionV2::default().previous_block_number(), 0);
}

#[test]
fn version_fields_of_one_and_eight_bytes() {
    assert_eq!(version_from_field(1, &[2, 0xff]), Some(2));
    assert_eq!(version_from_field(8, &[1, 2, 0, 0, 0, 0, 0, 0]), Some(0x0201));
    assert_eq!(version_from_field(2, &[1, 2]), None);
    assert_eq!(version_from_field(0, &[]), None);
}

#[test]
fn position_error_messages() {
    assert_eq!(ExecutionPositionError::InvalidVersion(3).message(), "Invalid version: 3");
    assert_eq!(
        ExecutionPositionError::PositionHeader(alloy_rlp::Error::InputTooShort).message(),
        "Failed to decode execution_position header: InputTooShort"
    );
    assert_eq!(
        ExecutionPositionError::VersionHeader(alloy_rlp::Error::LeadingZero).message(),
        "Failed to decode version header: LeadingZero"
    );
}

#[test]
fn unreadable_version_header_is_reported() {
    // A list whose first item announces a long string with no length bytes.
    let record = [0xc1u8, 0xb9];
    assert_eq!(
        ExecutionPositionV2::try_initialize_from_db_value(Some(&record[..])),
        Some(Err(ExecutionPositionError::VersionHeader(alloy_rlp::Error::InputTooShort)))
    );
}
