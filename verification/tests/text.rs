use rpcn::com_id::{com_id_from_str, is_npwr02973_00};
use rpcn::text::{
    decimal_text, hex_text, padded_text, parse_i32, parse_u32, query_param, same_text,
    sanitize_for_json, split_piece, strip_prefix, strip_suffix, truth_text,
};

#[test]
fn numbers_are_written_as_rust_writes_them() {
    for n in [0i128, 7, 10, 1234567890, -1, -90, i64::MIN as i128, u64::MAX as i128] {
        assert_eq!(decimal_text(n), n.to_string());
    }
    assert_eq!(padded_text(5, 3), "005");
    assert_eq!(padded_text(12345, 3), "12345");
    assert_eq!(hex_text(&vec![0, 0x0f, 0xa0, 0xff]), "000fa0ff");
    assert_eq!(truth_text(true), "true");
    assert_eq!(truth_text(false), "false");
}

#[test]
fn numbers_are_read_as_rust_reads_them() {
    for text in ["0", "42", "+42", "-42", "007", "", "+", "-", " 1", "1 ", "4294967295", "4294967296", "2147483647", "2147483648", "-2147483648", "-2147483649", "12a", "99999999999999999999999"] {
        assert_eq!(parse_u32(text), text.parse::<u32>().ok(), "{}", text);
        assert_eq!(parse_i32(text), text.parse::<i32>().ok(), "{}", text);
    }
}

#[test]
fn quotes_are_escaped_and_control_characters_dropped() {
    assert_eq!(sanitize_for_json("a\"b\\c"), "a\\\"b\\\\c");
    assert_eq!(sanitize_for_json("\x08\x0C\n\r\tx"), "x");
    assert_eq!(sanitize_for_json("\u{1}é漢"), "\u{1}é漢");
}

#[test]
fn prefixes_and_suffixes_are_stripped_as_rust_strips_them() {
    assert_eq!(strip_prefix("/a/b", "/a"), Some("/b"));
    assert_eq!(strip_prefix("/a", "/a/b"), None);
    assert_eq!(strip_prefix("éa", "é"), Some("a"));
    assert_eq!(strip_suffix("x/ranks", "/ranks"), Some("x"));
    assert_eq!(strip_suffix("x/rank", "/ranks"), None);
    assert!(same_text("abc", "abc"));
    assert!(!same_text("abc", "abd"));
    assert_eq!(split_piece("a/b/c", '/'), ("a", Some("b/c")));
    assert_eq!(split_piece("abc", '/'), ("abc", None));
    assert_eq!(split_piece("", '/'), ("", None));
}

#[test]
fn the_first_parameter_of_a_name_counts() {
    assert_eq!(query_param(Some("limit=3&slot=2"), "slot"), Some("2"));
    assert_eq!(query_param(Some("limit=3&limit=4"), "limit"), Some("3"));
    assert_eq!(query_param(Some("limits=3&limit=4"), "limit"), Some("4"));
    assert_eq!(query_param(Some("limit"), "limit"), None);
    assert_eq!(query_param(Some("limit="), "limit"), Some(""));
    assert_eq!(query_param(Some(""), "limit"), None);
    assert_eq!(query_param(None, "limit"), None);
    assert_eq!(query_param(Some("a=b=c"), "a"), Some("b=c"));
}

#[test]
fn a_communication_id_is_twelve_bytes() {
    assert_eq!(com_id_from_str("NPWR02973_00"), Some(*b"NPWR02973_00"));
    assert_eq!(com_id_from_str("NPWR02973_0"), None);
    assert_eq!(com_id_from_str("NPWR02973_000"), None);
    assert_eq!(com_id_from_str("é12345678901"), None);
    assert_eq!(com_id_from_str("é1234567890"), Some([0xC3, 0xA9, b'1', b'2', b'3', b'4', b'5', b'6', b'7', b'8', b'9', b'0']));
    assert!(is_npwr02973_00(b"NPWR02973_00"));
    assert!(!is_npwr02973_00(b"NPWR02973_01"));
}
