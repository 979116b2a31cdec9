//! Texts and numbers.

use robstride_sandbox::text::{
    align_right, contains, decimal_text, from_chars, hex_str, hex_text, join, padded_text,
    parse_number, parse_u8, repeat_char, same_text, split_pieces, split_words, to_chars, trim,
};

#[test]
fn numbers_are_written() {
    assert_eq!(decimal_text(0), "0");
    assert_eq!(decimal_text(u64::MAX), "18446744073709551615");
    assert_eq!(hex_text(0xAB, 4), "00AB");
    assert_eq!(hex_text(0x12345, 2), "45");
    assert_eq!(padded_text(7, 10, 2), "07");
    assert_eq!(padded_text(5, 2, 4), "0101");
    assert_eq!(hex_str(&[0xDE, 0x0A]), "DE 0A");
    assert_eq!(hex_str(&[]), "");
}

#[test]
fn numbers_are_read() {
    assert_eq!(parse_number(b"ff", 16, 0xFF), Some(255));
    assert_eq!(parse_number(b"100", 16, 0xFF), None);
    assert_eq!(parse_number(b"+7", 10, 255), Some(7));
    assert_eq!(parse_number(b"+", 10, 255), None);
    assert_eq!(parse_number(b"", 10, 255), None);
    assert_eq!(parse_number(b"-1", 10, 255), None);
    assert_eq!(parse_number(b"0000000000000000000000000000012", 10, 255), Some(12));
    assert_eq!(parse_u8("255"), Some(255));
    assert_eq!(parse_u8("256"), None);
    assert_eq!(parse_u8("+5"), Some(5));
    assert_eq!(parse_u8(" 5"), None);
    assert_eq!(parse_u8("99999999999999999999999"), None);
}

#[test]
fn written_bytes_are_read_again() {
    for n in 0..=255u64 {
        assert_eq!(parse_number(hex_text(n, 2).as_bytes(), 16, 0xFF), Some(n));
        assert_eq!(parse_u8(decimal_text(n).as_str()), Some(n as u8));
    }
}

#[test]
fn words_and_pieces() {
    assert_eq!(split_words("  a\tbc \n d\u{3000}e "), vec!["a", "bc", "d", "e"]);
    assert_eq!(split_words(" \t"), Vec::<String>::new());
    assert_eq!(split_pieces("a|b||", '|'), vec!["a", "b", "", ""]);
    assert_eq!(split_pieces("", '|'), vec![""]);
    assert_eq!(trim(" \u{A0}a b\n"), "a b");
    assert_eq!(trim("  "), "");
}

#[test]
fn joined_words_are_split_again() {
    let parts = vec!["10".to_string(), "0.5".to_string(), "é".to_string()];
    assert_eq!(join(&parts, " "), "10 0.5 é");
    assert_eq!(split_words(join(&parts, " ").as_str()), parts);
    assert_eq!(join(&Vec::new(), " "), "");
}

#[test]
fn joined_pieces_are_split_again() {
    let parts = vec!["rs".to_string(), "".to_string(), "both".to_string()];
    assert_eq!(split_pieces(join(&parts, "|").as_str(), '|'), parts);
}

#[test]
fn parts_of_texts() {
    assert!(contains("Scan failed: x", "failed"));
    assert!(!contains("fail", "failed"));
    assert!(contains("", ""));
    assert!(contains("abc", ""));
    assert!(same_text("é", "é"));
    assert!(!same_text("a", "A"));
    let chars = to_chars("héllo");
    assert_eq!(chars.len(), 5);
    assert_eq!(from_chars(&chars, 1, 3), "él");
    assert_eq!(from_chars(&chars, 2, 2), "");
}

#[test]
fn columns() {
    assert_eq!(align_right("ab", 4), "  ab");
    assert_eq!(align_right("abcde", 4), "abcde");
    assert_eq!(align_right("τé", 4), "  τé");
    assert_eq!(repeat_char('-', 3), "---");
    assert_eq!(repeat_char('-', 0), "");
}
