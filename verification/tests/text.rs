use takure::text::{contains_char, decimal_string, decode_field, parse_u64, same_text, starts_with_char, strip_nul};

#[test]
fn decimal_rendering() {
    assert_eq!(decimal_string(0), "0");
    assert_eq!(decimal_string(7), "7");
    assert_eq!(decimal_string(38_123), "38123");
    assert_eq!(decimal_string(u32::MAX), "4294967295");
}

#[test]
fn parse_u64_accepts_like_std() {
    for text in ["2022022801", "0", "+17", "18446744073709551615", "", "+", "-1", "12a", "18446744073709551616", " 1", "00042"] {
        assert_eq!(parse_u64(text), text.parse::<u64>().ok(), "input {:?}", text);
    }
}

#[test]
fn strip_nul_removes_all_nuls() {
    assert_eq!(strip_nul("card\0\0\0"), "card");
    assert_eq!(strip_nul("\0a\0b"), "ab");
    assert_eq!(strip_nul(""), "");
}

#[test]
fn decode_field_of_buffers() {
    let mut raw = [0u8; 32];
    raw[..7].copy_from_slice(b"cardmng");
    assert_eq!(decode_field(&raw), Some("cardmng".to_string()));
    assert_eq!(decode_field(&[0xff, 0x41]), None);
    assert_eq!(decode_field("é\0".as_bytes()), Some("é".to_string()));
}

#[test]
fn character_tests() {
    assert!(same_text("MDX", "MDX"));
    assert!(!same_text("MDX", "MDXX"));
    assert!(starts_with_char("v1.0", 'v'));
    assert!(!starts_with_char("", 'v'));
    assert!(contains_char("v1.0-3-g1", '-'));
    assert!(!contains_char("v1.0", '-'));
}
