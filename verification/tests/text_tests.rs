use pavkhemerak_api::text::{
    chars_of, concat3, hex_marker_end, i64_text, is_alphanumeric, parse_hex_u128, parse_hex_u64,
    parse_i64, parse_u16, remove_all_of, same_text, starts_with, strip_prefix, to_lowercase,
    to_uppercase, u64_text,
};

#[test]
fn parse_u16_accepts_plain_and_plus_signed_numbers() {
    assert_eq!(parse_u16("3001"), Some(3001));
    assert_eq!(parse_u16("+80"), Some(80));
    assert_eq!(parse_u16("0"), Some(0));
    assert_eq!(parse_u16("65535"), Some(65535));
}

#[test]
fn parse_u16_refuses_what_std_refuses() {
    for s in ["", "+", "-", "-1", "65536", "80a", " 80", "++1", "٣"] {
        assert_eq!(parse_u16(s), None, "{s}");
        assert!(s.parse::<u16>().is_err(), "{s}");
    }
}

#[test]
fn parse_u16_agrees_with_std_on_samples() {
    for s in ["1", "001", "+0", "4242", "65534", "99999"] {
        assert_eq!(parse_u16(s), s.parse::<u16>().ok(), "{s}");
    }
}

#[test]
fn parse_i64_reaches_both_ends() {
    assert_eq!(parse_i64("-9223372036854775808"), Some(i64::MIN));
    assert_eq!(parse_i64("9223372036854775807"), Some(i64::MAX));
    assert_eq!(parse_i64("9223372036854775808"), None);
    assert_eq!(parse_i64("-9223372036854775809"), None);
    assert_eq!(parse_i64("+17"), Some(17));
    assert_eq!(parse_i64("-"), None);
    assert_eq!(parse_i64("1609459200"), Some(1609459200));
    assert_eq!(parse_i64("12.5"), None);
}

#[test]
fn hex_quantities_trim_every_leading_marker() {
    let v = chars_of("0x0x1f");
    let start = hex_marker_end(&v);
    assert_eq!(start, 4);
    assert_eq!(parse_hex_u128(&v, start), Some(31));
    let v = chars_of("0x1bc16d674ec80000");
    let start = hex_marker_end(&v);
    assert_eq!(parse_hex_u128(&v, start), Some(2_000_000_000_000_000_000));
    let v = chars_of("0xFFFFFFFFFFFFFFFF");
    assert_eq!(parse_hex_u64(&v, 2), Some(u64::MAX));
    let v = chars_of("0x10000000000000000");
    assert_eq!(parse_hex_u64(&v, 2), None);
    let v = chars_of("0xzz");
    assert_eq!(parse_hex_u128(&v, 2), None);
}

#[test]
fn integers_render_like_display() {
    assert_eq!(i64_text(0), "0");
    assert_eq!(i64_text(-42), "-42");
    assert_eq!(i64_text(i64::MIN), i64::MIN.to_string());
    assert_eq!(u64_text(u64::MAX), u64::MAX.to_string());
    assert_eq!(u64_text(19_042_001), "19042001");
}

#[test]
fn remove_all_takes_matches_from_the_left() {
    assert_eq!(remove_all_of("refs/heads/main", "refs/heads/"), "main");
    assert_eq!(remove_all_of("MemberEvent", "Event"), "Member");
    assert_eq!(remove_all_of("aaa", "aa"), "a");
    assert_eq!(remove_all_of("abc", ""), "abc");
    assert_eq!(remove_all_of("refs/refs/heads/heads/x", "refs/heads/"), "refs/heads/x");
    assert_eq!("refs/refs/heads/heads/x".replace("refs/heads/", ""), "refs/heads/x");
}

#[test]
fn prefixes_and_equality() {
    assert!(starts_with("0xabc", "0x"));
    assert!(!starts_with("0", "0x"));
    assert_eq!(strip_prefix("sqlite:data/db", "sqlite:"), Some("data/db".to_string()));
    assert_eq!(strip_prefix("postgres://x", "sqlite:"), None);
    assert!(same_text("ALL", "ALL"));
    assert!(!same_text("ALL", "All"));
    assert_eq!(concat3("a", "b", "c"), "abc");
}

#[test]
fn case_mapping_follows_unicode() {
    assert_eq!(to_uppercase("ctf-writeups"), "CTF-WRITEUPS");
    assert_eq!(to_uppercase("straße"), "STRASSE");
    assert_eq!(to_lowercase("0xAbCd"), "0xabcd");
    assert!(is_alphanumeric('é'));
    assert!(is_alphanumeric('7'));
    assert!(!is_alphanumeric(';'));
}
