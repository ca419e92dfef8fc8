use player_nfts::text::{decimal_string, fits, MAX_DESCRIPTION_LEN, MAX_NAME_LEN};

#[test]
fn decimal_of_small_numbers() {
    assert_eq!(decimal_string(0), "0");
    assert_eq!(decimal_string(7), "7");
    assert_eq!(decimal_string(10), "10");
    assert_eq!(decimal_string(120), "120");
    assert_eq!(decimal_string(1_000_000), "1000000");
}

#[test]
fn decimal_of_largest_playtime() {
    assert_eq!(decimal_string(u64::MAX), "18446744073709551615");
}

#[test]
fn fits_rejects_empty_and_long() {
    assert!(!fits(&String::new(), MAX_NAME_LEN));
    assert!(fits(&"a".to_string(), MAX_NAME_LEN));
    assert!(fits(&"a".repeat(32), MAX_NAME_LEN));
    assert!(!fits(&"a".repeat(33), MAX_NAME_LEN));
    assert!(fits(&"a".repeat(200), MAX_DESCRIPTION_LEN));
    assert!(!fits(&"a".repeat(201), MAX_DESCRIPTION_LEN));
}

#[test]
fn fits_counts_utf8_bytes() {
    // Two-byte characters: sixteen of them take 32 bytes, seventeen take 34.
    assert!(fits(&"\u{e9}".repeat(16), MAX_NAME_LEN));
    assert!(!fits(&"\u{e9}".repeat(17), MAX_NAME_LEN));
}
