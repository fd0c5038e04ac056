use ai_mesh::canonical::{encode_json_object, job_id_text, json_number, json_text};
use ai_mesh::hexcode::{from_hex, to_hex, HexError};
use ai_mesh::text::{contains_text, trim_end_matching};

#[test]
fn hex_encodes_lowercase_high_half_first() {
    assert_eq!(to_hex(&[0x00, 0xab, 0x10, 0xff]), "00ab10ff");
    assert_eq!(to_hex(&[]), "");
}

#[test]
fn hex_decodes_both_cases() {
    assert_eq!(from_hex("00AB10ff"), Ok(vec![0x00, 0xab, 0x10, 0xff]));
    assert_eq!(from_hex(""), Ok(vec![]));
}

#[test]
fn hex_refuses_odd_length_before_bad_digits() {
    assert_eq!(from_hex("abc"), Err(HexError::OddLength));
    assert_eq!(from_hex("zzz"), Err(HexError::OddLength));
}

#[test]
fn hex_reports_first_bad_digit() {
    assert_eq!(from_hex("zz"), Err(HexError::InvalidHexCharacter { c: 'z', index: 0 }));
    assert_eq!(from_hex("0g1h"), Err(HexError::InvalidHexCharacter { c: 'g', index: 1 }));
    assert_eq!(from_hex("00 1"), Err(HexError::InvalidHexCharacter { c: ' ', index: 2 }));
}

#[test]
fn hex_round_trip() {
    let bytes: Vec<u8> = (0u8..=255).collect();
    assert_eq!(from_hex(&to_hex(&bytes)), Ok(bytes));
}

#[test]
fn job_id_text_is_hyphenated_lowercase() {
    let id = [
        0x12, 0x34, 0x56, 0x78, 0x9a, 0xbc, 0xde, 0xf0, 0x12, 0x34, 0x56, 0x78, 0x9a, 0xbc, 0xde, 0xf0,
    ];
    assert_eq!(job_id_text(&id), "12345678-9abc-def0-1234-56789abcdef0");
}

#[test]
fn json_object_is_compact_and_escaped() {
    let members = vec![("a", json_text("b")), ("c", json_text("d\"e\\f\n")), ("n", json_number(42))];
    let bytes = encode_json_object(&members);
    assert_eq!(bytes, br#"{"a":"b","c":"d\"e\\f\n","n":42}"#.to_vec());
    let empty: Vec<(&str, Vec<u8>)> = vec![];
    assert_eq!(encode_json_object(&empty), b"{}".to_vec());
}

#[test]
fn json_numbers_are_decimal() {
    assert_eq!(json_number(0), b"0".to_vec());
    assert_eq!(json_number(u64::MAX), b"18446744073709551615".to_vec());
}

fn escaped_by_rule(s: &str) -> Vec<u8> {
    let mut v = vec![b'"'];
    for &b in s.as_bytes() {
        match b {
            b'"' => v.extend_from_slice(b"\\\""),
            b'\\' => v.extend_from_slice(b"\\\\"),
            0x08 => v.extend_from_slice(b"\\b"),
            0x09 => v.extend_from_slice(b"\\t"),
            0x0a => v.extend_from_slice(b"\\n"),
            0x0c => v.extend_from_slice(b"\\f"),
            0x0d => v.extend_from_slice(b"\\r"),
            b if b < 0x20 => v.extend_from_slice(format!("\\u{:04x}", b).as_bytes()),
            b => v.push(b),
        }
    }
    v.push(b'"');
    v
}

#[test]
fn json_text_escapes_by_rule() {
    for c in (0u32..0x800).chain(0xfff0..0x10010).filter_map(char::from_u32) {
        let s = format!("x{}y", c);
        assert_eq!(json_text(&s), escaped_by_rule(&s));
    }
    assert_eq!(json_text("\u{1}"), br#""\u0001""#.to_vec());
    assert_eq!(json_text("\u{8}\u{c}"), br#""\b\f""#.to_vec());
}

#[test]
fn contains_text_finds_runs() {
    assert!(contains_text("llama-3.1-8b", "3.1"));
    assert!(contains_text("llama", "llama"));
    assert!(contains_text("llama", ""));
    assert!(!contains_text("llama", "llamas"));
    assert!(!contains_text("llama", "lama3"));
    assert!(contains_text("größe", "öß"));
}

#[test]
fn trim_end_matching_removes_every_trailing_char() {
    assert_eq!(trim_end_matching("http://h:1///", '/'), "http://h:1");
    assert_eq!(trim_end_matching("///", '/'), "");
    assert_eq!(trim_end_matching("a/b", '/'), "a/b");
}
