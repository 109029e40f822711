//! Identifiers, owners, sides and numbers as text.

use orderbook_rs::order::{Hash32, Id, Side};
use orderbook_rs::text::{push_decimal, push_option};

#[test]
fn sides_are_written_in_capitals() {
    assert_eq!(Side::Buy.to_string(), "BUY");
    assert_eq!(Side::Sell.to_string(), "SELL");
}

#[test]
fn uuids_are_hyphenated_lowercase_hexadecimal() {
    assert_eq!(
        Id::Uuid(0x550e8400_e29b_41d4_a716_446655440000).to_string(),
        "550e8400-e29b-41d4-a716-446655440000"
    );
    assert_eq!(
        Id::Uuid(0).to_string(),
        "00000000-0000-0000-0000-000000000000"
    );
    assert_eq!(
        Id::Uuid(77 << 64).to_string(),
        pricelevel::Id::from_u64(77).to_string()
    );
}

#[test]
fn ulids_are_crockford_base_32() {
    assert_eq!(Id::Ulid(0).to_string(), "00000000000000000000000000");
    assert_eq!(Id::Ulid(u128::MAX).to_string(), "7ZZZZZZZZZZZZZZZZZZZZZZZZZ");
    assert_eq!(Id::Ulid(31).to_string(), "0000000000000000000000000Z");
    assert_eq!(Id::Ulid(32 + 18).to_string(), "0000000000000000000000001J");
}

#[test]
fn sequential_ids_are_decimal() {
    assert_eq!(Id::Sequential(42).to_string(), "42");
    assert_eq!(Id::Sequential(u64::MAX).to_string(), "18446744073709551615");
}

#[test]
fn ids_debug_as_in_the_matching_engine() {
    let bits: u128 = 0x550e8400_e29b_41d4_a716_446655440000;
    assert_eq!(
        format!("{:?}", Id::Uuid(bits)),
        "Uuid(550e8400-e29b-41d4-a716-446655440000)"
    );
    assert_eq!(format!("{:?}", Id::Ulid(31)), "Ulid(Ulid(31))");
    assert_eq!(format!("{:?}", Id::Sequential(42)), "Sequential(42)");
    let pairs = vec![
        (
            Id::Uuid(bits),
            pricelevel::Id::Uuid(uuid::Uuid::from_u128(bits)),
        ),
        (Id::Ulid(bits), pricelevel::Id::Ulid(bits.into())),
        (Id::Sequential(255), pricelevel::Id::Sequential(255)),
    ];
    for (id, raw) in pairs {
        assert_eq!(format!("{:?}", id), format!("{:?}", raw));
        assert_eq!(format!("{:#?}", id), format!("{:#?}", raw));
        assert_eq!(format!("{:#x?}", id), format!("{:#x?}", raw));
        assert_eq!(format!("{:60?}", id), format!("{:60?}", raw));
    }
}

#[test]
fn sides_and_owners_debug_as_in_the_matching_engine() {
    assert_eq!(
        format!("{:?}", Side::Buy),
        format!("{:?}", pricelevel::Side::Buy)
    );
    assert_eq!(
        format!("{:?}", Side::Sell),
        format!("{:?}", pricelevel::Side::Sell)
    );
    assert_eq!(
        format!("{:?}", Hash32::new([7u8; 32])),
        format!("{:?}", pricelevel::Hash32::new([7u8; 32]))
    );
}

#[test]
fn owners_are_lowercase_hexadecimal() {
    let mut bytes = [0u8; 32];
    bytes[0] = 0x1f;
    bytes[31] = 0xe2;
    let text = Hash32::new(bytes).to_string();
    assert_eq!(text, format!("1f{}e2", "00".repeat(30)));
    assert_eq!(text, pricelevel::Hash32::new(bytes).to_string());
}

#[test]
fn owners_are_equal_by_their_bytes() {
    assert!(Hash32::zero() == Hash32::new([0u8; 32]));
    assert!(Hash32::from([3u8; 32]) == Hash32::new([3u8; 32]));
    assert!(Hash32::from([3u8; 32]) != Hash32::new([4u8; 32]));
    let mut bytes = [3u8; 32];
    bytes[0] = 4;
    assert!(Hash32::new(bytes) != Hash32::new([3u8; 32]));
}

#[test]
fn numbers_are_appended_in_decimal() {
    let mut out = "n=".to_string();
    push_decimal(&mut out, 0);
    out.push(' ');
    push_decimal(&mut out, 1_234_567_890);
    assert_eq!(out, "n=0 1234567890");
    let mut largest = String::new();
    push_decimal(&mut largest, u128::MAX);
    assert_eq!(largest, "340282366920938463463374607431768211455");
}

#[test]
fn options_are_appended_with_their_variant() {
    let mut out = String::new();
    push_option(&mut out, Some(10));
    push_option(&mut out, None);
    assert_eq!(out, "Some(10)None");
}
