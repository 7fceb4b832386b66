use trin_execution::text::{decimal_string, hash_string, upper_hex_string};

#[test]
fn upper_hex_matches_std_formatting() {
    for n in [0u64, 9, 10, 15, 16, 255, 4096, 0xdead_beef, u64::MAX] {
        assert_eq!(upper_hex_string(n), format!("{n:X}"));
    }
}

#[test]
fn decimal_matches_std_formatting() {
    for n in [0u64, 7, 10, 99, 100, 123_456_789, u64::MAX] {
        assert_eq!(decimal_string(n), n.to_string());
    }
}

#[test]
fn hash_text_is_prefixed_lower_hex() {
    let mut h = [0u8; 32];
    for (i, b) in h.iter_mut().enumerate() {
        *b = (i as u8) * 8;
    }
    let expected: String = std::iter::once("0x".to_string())
        .chain(h.iter().map(|b| format!("{b:02x}")))
        .collect();
    assert_eq!(hash_string(&h), expected);
}
