use worker_preview::text::{char_is_whitespace, decimal_string};

#[test]
fn decimal_of_small_and_large_numbers() {
    assert_eq!(decimal_string(0), "0");
    assert_eq!(decimal_string(7), "7");
    assert_eq!(decimal_string(10), "10");
    assert_eq!(decimal_string(413), "413");
    assert_eq!(decimal_string(1_000_000), "1000000");
    assert_eq!(decimal_string(u64::MAX), "18446744073709551615");
}

#[test]
fn decimal_agrees_with_formatting() {
    for n in [1u64, 9, 11, 99, 100, 101, 65535, 4294967296, 9007199254740993] {
        assert_eq!(decimal_string(n), n.to_string());
    }
}

#[test]
fn white_space_is_what_the_standard_library_says() {
    let mut n = 0u32;
    while n <= 0x3100 {
        if let Some(c) = char::from_u32(n) {
            assert_eq!(char_is_whitespace(c), c.is_whitespace(), "U+{:04X}", n);
        }
        n += 1;
    }
    assert!(!char_is_whitespace('\u{feff}'));
    assert!(!char_is_whitespace('\u{10ffff}'));
}
