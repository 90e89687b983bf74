use swdk::rt::utils::parse_hex_u16;

#[test]
fn parse_hex_lowercase() {
    assert_eq!(parse_hex_u16("ff"), Some(255));
}

#[test]
fn parse_hex_uppercase() {
    assert_eq!(parse_hex_u16("FF"), Some(255));
}

#[test]
fn parse_invalid_hex() {
    assert_eq!(parse_hex_u16("XYZ"), None);
}

#[test]
fn parse_hex_overflow_returns_none() {
    assert_eq!(parse_hex_u16("10000"), None);
}

#[test]
fn parse_empty_hex_returns_zero() {
    assert_eq!(parse_hex_u16(""), Some(0));
}

#[test]
fn parse_hex_mixed_case_and_max_value() {
    assert_eq!(parse_hex_u16("fFfF"), Some(0xFFFF));
    assert_eq!(parse_hex_u16("0001"), Some(1));
    assert_eq!(parse_hex_u16("aBc"), Some(0xABC));
}

#[test]
fn parse_hex_leading_zeros_do_not_overflow() {
    assert_eq!(parse_hex_u16("00000000ffff"), Some(0xFFFF));
    assert_eq!(parse_hex_u16("0000000010000"), None);
}

#[test]
fn parse_hex_rejects_prefix_sign_and_non_ascii() {
    assert_eq!(parse_hex_u16("0x1f"), None);
    assert_eq!(parse_hex_u16("-1"), None);
    assert_eq!(parse_hex_u16("1 "), None);
    assert_eq!(parse_hex_u16("é"), None);
    assert_eq!(parse_hex_u16("g"), None);
}

#[test]
fn parse_hex_invalid_after_overflow_is_none() {
    assert_eq!(parse_hex_u16("fffffz"), None);
}
