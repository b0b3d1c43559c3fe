use token_miner::text::{to_decimal, to_hex};

#[test]
fn decimal_of_zero_is_a_single_digit() {
    assert_eq!(to_decimal(0), "0");
}

#[test]
fn decimal_of_small_and_round_numbers() {
    assert_eq!(to_decimal(7), "7");
    assert_eq!(to_decimal(10), "10");
    assert_eq!(to_decimal(17), "17");
    assert_eq!(to_decimal(1000), "1000");
    assert_eq!(to_decimal(12345), "12345");
    assert_eq!(to_decimal(9007199254740993), "9007199254740993");
}

#[test]
fn decimal_of_the_largest_nonce() {
    assert_eq!(to_decimal(u64::MAX), "18446744073709551615");
}

#[test]
fn decimal_agrees_with_the_standard_rendering() {
    let mut n: u64 = 1;
    for _ in 0..200 {
        assert_eq!(to_decimal(n), n.to_string());
        n = n.wrapping_mul(6364136223846793005).wrapping_add(1442695040888963407);
    }
}

#[test]
fn hex_of_nothing_is_empty() {
    assert_eq!(to_hex(&[]), "");
}

#[test]
fn hex_is_lowercase_with_two_digits_per_byte() {
    assert_eq!(to_hex(&[0x00, 0xff, 0x1a, 0x09, 0xa0]), "00ff1a09a0");
    assert_eq!(to_hex(&[0x0f]), "0f");
    assert_eq!(to_hex(&[0xde, 0xad, 0xbe, 0xef]), "deadbeef");
}

#[test]
fn hex_covers_every_byte_value() {
    for b in 0..=255u8 {
        assert_eq!(to_hex(&[b]), format!("{:02x}", b));
    }
}
