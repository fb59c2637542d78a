use proof_coordinator::hexadecimal::{hash, parse_hash, parse_quantity, quantity};

#[test]
fn quantities_are_read() {
    assert_eq!(parse_quantity("0x0", u128::MAX), Some(0));
    assert_eq!(parse_quantity("0x1f", u128::MAX), Some(31));
    assert_eq!(parse_quantity("0x1F", u128::MAX), Some(31));
    assert_eq!(parse_quantity("ff", u128::MAX), Some(255));
    assert_eq!(parse_quantity("0xed14f1", u128::MAX), Some(15537393));
    assert_eq!(parse_quantity("0x000a", u128::MAX), Some(10));
    assert_eq!(
        parse_quantity("0xc70d808a128d7380000", u128::MAX),
        Some(58_750_000_000_000_000_000_000)
    );
}

#[test]
fn every_prefix_at_the_front_is_skipped_and_a_plus_sign_is_taken() {
    assert_eq!(parse_quantity("0x0x10", u128::MAX), Some(16));
    assert_eq!(parse_quantity("+10", u128::MAX), Some(16));
    assert_eq!(parse_quantity("0x+10", u128::MAX), Some(16));
    assert_eq!(parse_quantity("+0x10", u128::MAX), None);
    assert_eq!(parse_quantity("++1", u128::MAX), None);
    assert_eq!(parse_quantity("-1", u128::MAX), None);
}

#[test]
fn text_that_is_no_quantity_is_refused() {
    assert_eq!(parse_quantity("", u128::MAX), None);
    assert_eq!(parse_quantity("0x", u128::MAX), None);
    assert_eq!(parse_quantity("+", u128::MAX), None);
    assert_eq!(parse_quantity("0x+", u128::MAX), None);
    assert_eq!(parse_quantity("0xg", u128::MAX), None);
    assert_eq!(parse_quantity("0x12 ", u128::MAX), None);
    assert_eq!(parse_quantity(" 0x12", u128::MAX), None);
    assert_eq!(parse_quantity("0x1_0", u128::MAX), None);
    assert_eq!(parse_quantity("0xé", u128::MAX), None);
    assert_eq!(parse_quantity("x1", u128::MAX), None);
}

#[test]
fn quantities_above_the_bound_are_refused() {
    let max = u64::MAX as u128;
    assert_eq!(parse_quantity("0xffffffffffffffff", max), Some(max));
    assert_eq!(parse_quantity("0x10000000000000000", max), None);
    assert_eq!(parse_quantity("0xffffffffffffffffffffffffffffffff", u128::MAX), Some(u128::MAX));
    assert_eq!(parse_quantity("0x100000000000000000000000000000000", u128::MAX), None);
    assert_eq!(parse_quantity("0x0ffffffffffffffffffffffffffffffff", u128::MAX), Some(u128::MAX));
    assert_eq!(parse_quantity("0x1", 0), None);
    assert_eq!(parse_quantity("0x0", 0), Some(0));
}

#[test]
fn quantities_are_read_as_the_standard_library_reads_them() {
    let texts = [
        "0", "7f", "0x7f", "0X7f", "0x0x7f", "+7f", "0x+7f", "-7f", "", "+", "0x", "7g", "ABCDEF",
        "abcdef0123456789", "0x00000000000000000000000000000000000001", " 1", "1 ", "١",
    ];
    for text in texts {
        let expected = u128::from_str_radix(text.trim_start_matches("0x"), 16).ok();
        assert_eq!(parse_quantity(text, u128::MAX), expected);
        let expected = u64::from_str_radix(text.trim_start_matches("0x"), 16).ok();
        assert_eq!(
            parse_quantity(text, u64::MAX as u128).map(|value| value as u64),
            expected
        );
    }
}

#[test]
fn quantities_are_written_without_leading_zeros() {
    assert_eq!(quantity(0), "0x0");
    assert_eq!(quantity(10), "0xa");
    assert_eq!(quantity(255), "0xff");
    assert_eq!(quantity(15537393), "0xed14f1");
    assert_eq!(quantity(u128::MAX), format!("{:#x}", u128::MAX));
    for n in [0u128, 1, 15, 16, 17, 4096, 1 << 64, (1 << 100) + 12345] {
        assert_eq!(quantity(n), format!("{:#x}", n));
        assert_eq!(parse_quantity(&quantity(n), u128::MAX), Some(n));
    }
}

#[test]
fn hashes_are_read() {
    let mut expected = [0u8; 32];
    expected[0] = 0xAB;
    expected[1] = 0xcd;
    expected[31] = 0x0F;
    let text = format!("0xabCD{}0f", "00".repeat(29));
    assert_eq!(parse_hash(&text), Some(expected));
    assert_eq!(parse_hash(&format!("0x{}", "11".repeat(32))), Some([0x11; 32]));
}

#[test]
fn text_that_is_no_hash_is_refused() {
    assert_eq!(parse_hash(""), None);
    assert_eq!(parse_hash("0x"), None);
    assert_eq!(parse_hash(&"11".repeat(32)), None);
    assert_eq!(parse_hash(&"11".repeat(33)), None);
    assert_eq!(parse_hash(&format!("0x{}", "11".repeat(31))), None);
    assert_eq!(parse_hash(&format!("0x{}", "11".repeat(33))), None);
    assert_eq!(parse_hash(&format!("0x{}1", "11".repeat(31))), None);
    assert_eq!(parse_hash(&format!("0x{}zz", "11".repeat(31))), None);
    assert_eq!(parse_hash(&format!("0X{}", "11".repeat(32))), None);
}

#[test]
fn hashes_are_written_in_lower_case() {
    let mut bytes = [0u8; 32];
    bytes[0] = 0xAB;
    bytes[31] = 0x0F;
    let text = hash(&bytes);
    assert_eq!(text, format!("0xab{}0f", "00".repeat(30)));
    assert_eq!(parse_hash(&text), Some(bytes));
}
