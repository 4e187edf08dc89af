use linkkivahti::text::{
    bytes_eq, contains_ignore_ascii_case, decimal_string, find_byte, push_decimal,
    push_hex_padded, starts_with, str_eq, to_ascii_lower,
};

#[test]
fn decimal_exact_values() {
    assert_eq!(decimal_string(0), "0");
    assert_eq!(decimal_string(9), "9");
    assert_eq!(decimal_string(10), "10");
    assert_eq!(decimal_string(404), "404");
    assert_eq!(decimal_string(15548997), "15548997");
    assert_eq!(decimal_string(u32::MAX), "4294967295");
    let mut out = String::from("HTTP ");
    push_decimal(&mut out, 1000);
    assert_eq!(out, "HTTP 1000");
}

#[test]
fn decimal_agrees_with_the_standard_rendering() {
    for n in [0u32, 1, 7, 10, 99, 100, 101, 65535, 65536, 999_999_999, 1_000_000_000] {
        assert_eq!(decimal_string(n), format!("{}", n));
    }
}

#[test]
fn hex_exact_values() {
    let mut out = String::new();
    push_hex_padded(&mut out, 0, 16);
    assert_eq!(out, "0000000000000000");

    let mut out = String::new();
    push_hex_padded(&mut out, u64::MAX, 16);
    assert_eq!(out, "ffffffffffffffff");

    let mut out = String::new();
    push_hex_padded(&mut out, 0xABCDEF0123456789, 16);
    assert_eq!(out, "abcdef0123456789");

    let mut out = String::from("0x");
    push_hex_padded(&mut out, 0x1234, 2);
    assert_eq!(out, "0x34");

    let mut out = String::from("keep");
    push_hex_padded(&mut out, 0x1234, 0);
    assert_eq!(out, "keep");
}

#[test]
fn hex_agrees_with_the_standard_rendering() {
    for n in [0u64, 1, 15, 16, 255, 0xdead_beef, 1 << 63, u64::MAX - 1] {
        let mut out = String::new();
        push_hex_padded(&mut out, n, 16);
        assert_eq!(out, format!("{:016x}", n));
    }
}

#[test]
fn equality() {
    assert!(bytes_eq(b"", b""));
    assert!(bytes_eq(b"abc", b"abc"));
    assert!(!bytes_eq(b"abc", b"abd"));
    assert!(!bytes_eq(b"abc", b"ab"));
    assert!(!bytes_eq(b"ab", b"abc"));
    assert!(str_eq("", ""));
    assert!(str_eq("ä🔗", "ä🔗"));
    assert!(!str_eq("a", "A"));
    assert!(!str_eq("a", "ab"));
}

#[test]
fn first_byte() {
    assert_eq!(find_byte(b"sha256-abc-def", b'-'), Some(6));
    assert_eq!(find_byte(b"-", b'-'), Some(0));
    assert_eq!(find_byte(b"abc-", b'-'), Some(3));
    assert_eq!(find_byte(b"abc", b'-'), None);
    assert_eq!(find_byte(b"", b'-'), None);
}

#[test]
fn substring_search_ignoring_case() {
    assert!(contains_ignore_ascii_case(b"https://DisCord.Com/x", b"discord.com"));
    assert!(contains_ignore_ascii_case(b"discord.com", b"DISCORD.COM"));
    assert!(contains_ignore_ascii_case(b"abc", b""));
    assert!(contains_ignore_ascii_case(b"", b""));
    assert!(!contains_ignore_ascii_case(b"", b"a"));
    assert!(!contains_ignore_ascii_case(b"discord.co", b"discord.com"));
    // '@' and '`' differ from each other by the same bit as letters do, and are no letters.
    assert!(!contains_ignore_ascii_case(b"@", b"`"));
    assert!(!contains_ignore_ascii_case(b"[", b"{"));
    assert!(contains_ignore_ascii_case(b"Z", b"z"));
    assert!(contains_ignore_ascii_case(b"a", b"A"));
    assert!(contains_ignore_ascii_case(b"hello world", b"LO W"));
    assert!(contains_ignore_ascii_case(b"hello world", b"hello world"));
    assert!(contains_ignore_ascii_case(b"hello world", b"D"));
    assert!(!contains_ignore_ascii_case(b"hello", b"hello world"));
    assert!(contains_ignore_ascii_case(b"aab", b"AB"));
    assert!(!contains_ignore_ascii_case(b"hello world", b"worlds"));
}

#[test]
fn ascii_lowercase() {
    assert_eq!(to_ascii_lower(b'A'), b'a');
    assert_eq!(to_ascii_lower(b'Z'), b'z');
    assert_eq!(to_ascii_lower(b'a'), b'a');
    assert_eq!(to_ascii_lower(b'@'), b'@');
    assert_eq!(to_ascii_lower(b'['), b'[');
    assert_eq!(to_ascii_lower(0xC4), 0xC4);
    for byte in 0u8..=255 {
        assert_eq!(to_ascii_lower(byte), byte.to_ascii_lowercase());
    }
}

#[test]
fn prefixes() {
    assert!(starts_with(b"sha256-abc", b"sha256-"));
    assert!(starts_with(b"sha256-", b"sha256-"));
    assert!(starts_with(b"abc", b""));
    assert!(!starts_with(b"sha256", b"sha256-"));
    assert!(!starts_with(b"xsha256-", b"sha256-"));
    assert!(!starts_with(b"", b"a"));
}
