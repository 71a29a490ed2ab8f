use erc8183::primitives::push_decimal;
use erc8183::{Address, U256};

#[test]
fn address_checksum_matches_eip55_vector() {
    let bytes: [u8; 20] = [
        0xd8, 0xda, 0x6b, 0xf2, 0x69, 0x64, 0xaf, 0x9d, 0x7e, 0xed, 0x9e, 0x03, 0xe5, 0x34, 0x15,
        0xd3, 0x7a, 0xa9, 0x60, 0x45,
    ];
    assert_eq!(
        Address(bytes).to_string(),
        "0xd8dA6BF26964aF9D7eEd9e03E53415D37aA96045"
    );
}

#[test]
fn address_zero_and_repeat() {
    assert!(Address::zero().is_zero());
    assert!(!Address::repeat_byte(1).is_zero());
    let mut b = [0u8; 20];
    b[19] = 1;
    assert!(!Address(b).is_zero());
    assert_eq!(Address::repeat_byte(0xAB).0, [0xAB; 20]);
}

#[test]
fn u256_decimal_text() {
    assert_eq!(U256::zero().to_string(), "0");
    assert_eq!(U256::from(100).to_string(), "100");
    assert_eq!(
        U256::from(u64::MAX).to_string(),
        "18446744073709551615"
    );
    let two_pow_64 = U256 { limbs: [0, 1, 0, 0] };
    assert_eq!(two_pow_64.to_string(), "18446744073709551616");
    let max = U256 { limbs: [u64::MAX; 4] };
    assert_eq!(
        max.to_string(),
        "115792089237316195423570985008687907853269984665640564039457584007913129639935"
    );
}

#[test]
fn push_decimal_appends_digits() {
    let mut s = String::from("n=");
    push_decimal(&mut s, 0);
    assert_eq!(s, "n=0");
    let mut s = String::new();
    push_decimal(&mut s, 9);
    push_decimal(&mut s, 10);
    push_decimal(&mut s, 1234567890);
    assert_eq!(s, "9101234567890");
}
