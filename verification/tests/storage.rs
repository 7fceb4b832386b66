use trin_execution::storage::{BlockStorage, BlockStorageError, BLOCK_KEY_PREFIX};

#[test]
fn block_hash_key_is_prefix_and_big_endian_number() {
    let key = BlockStorage::block_hash_key(0x0102_0304_0506_0708);
    assert_eq!(key, b"block\x01\x02\x03\x04\x05\x06\x07\x08".to_vec());
    assert_eq!(BlockStorage::block_hash_key(5), [&BLOCK_KEY_PREFIX[..], &5u64.to_be_bytes()].concat());
}

#[test]
fn block_key_is_prefix_and_hash() {
    let key = BlockStorage::block_key(&[0xee; 32]);
    assert_eq!(key.len(), 37);
    assert_eq!(&key[..5], b"block");
    assert_eq!(&key[5..], &[0xee; 32]);
}

#[test]
fn hydrated_requests_are_refused() {
    assert_eq!(BlockStorage::check_request(false), Ok(()));
    assert_eq!(BlockStorage::check_request(true), Err(BlockStorageError::HydratedTransactions));
}

#[test]
fn missing_index_entry_names_the_number() {
    assert_eq!(BlockStorage::block_hash_from_index(Some(&[3; 32]), 9), Ok([3; 32]));
    let err = BlockStorage::block_hash_from_index(None, 1234).unwrap_err();
    assert_eq!(err, BlockStorageError::NumberNotFound(1234));
    assert_eq!(err.message(), "Block with number 1234 not found in the database");
}

#[test]
fn error_messages() {
    assert_eq!(
        BlockStorageError::HydratedTransactions.message(),
        "replying with all transaction bodies is not supported yet"
    );
    assert_eq!(
        BlockStorageError::NumberNotFound(0).message(),
        "Block with number 0 not found in the database"
    );
    let mut h = [0u8; 32];
    h[0] = 0x12;
    h[31] = 0xff;
    assert_eq!(
        BlockStorageError::HashNotFound(h).message(),
        format!("Block with hash 0x12{}ff not found in the database", "00".repeat(30))
    );
}
