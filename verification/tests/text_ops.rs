use teams_tui::text::{
    char_index_at_byte, char_utf8_len, chars_of, contains_str, decimal, eq_ignore_ascii_case, is_blank, join_strings,
    parse_u64, replace_str, string_from_chars, text_lines, trim,
};

#[test]
fn trim_removes_surrounding_whitespace() {
    assert_eq!(trim("  hello world \t\n"), "hello world");
    assert_eq!(trim(""), "");
    assert_eq!(trim("   "), "");
    assert_eq!(trim("\u{3000}wide\u{3000}"), "wide");
}

#[test]
fn is_blank_detects_whitespace_only() {
    assert!(is_blank(""));
    assert!(is_blank(" \t\r\n"));
    assert!(!is_blank("  a "));
}

#[test]
fn contains_str_finds_substrings() {
    assert!(contains_str("hello", "ell"));
    assert!(contains_str("hello", ""));
    assert!(contains_str("hello", "hello"));
    assert!(!contains_str("hello", "hello!"));
    assert!(!contains_str("", "a"));
    assert!(contains_str("error 403 forbidden", "403"));
}

#[test]
fn replace_str_doubles_quotes() {
    assert_eq!(replace_str("O'Brien's", "'", "''"), "O''Brien''s");
    assert_eq!(replace_str("aaa", "aa", "b"), "ba");
    assert_eq!(replace_str("none here", "x", "y"), "none here");
}

#[test]
fn eq_ignore_ascii_case_ignores_ascii_case_only() {
    assert!(eq_ignore_ascii_case("HeLLo", "hello"));
    assert!(!eq_ignore_ascii_case("hello", "hell"));
    assert!(!eq_ignore_ascii_case("é", "É"));
}

#[test]
fn join_strings_with_separator() {
    let parts = vec!["Alice".to_string(), "Bob".to_string(), "Carol".to_string()];
    assert_eq!(join_strings(&parts, ", "), "Alice, Bob, Carol");
    assert_eq!(join_strings(&vec!["one".to_string()], ", "), "one");
    assert_eq!(join_strings(&Vec::new(), ", "), "");
}

#[test]
fn decimal_writes_digits() {
    assert_eq!(decimal(0), "0");
    assert_eq!(decimal(7), "7");
    assert_eq!(decimal(1234), "1234");
    assert_eq!(decimal(u128::MAX), u128::MAX.to_string());
}

#[test]
fn parse_u64_follows_from_str() {
    assert_eq!(parse_u64("42"), Some(42));
    assert_eq!(parse_u64("+7"), Some(7));
    assert_eq!(parse_u64("007"), Some(7));
    assert_eq!(parse_u64("18446744073709551615"), Some(u64::MAX));
    assert_eq!(parse_u64("18446744073709551616"), None);
    assert_eq!(parse_u64(""), None);
    assert_eq!(parse_u64("+"), None);
    assert_eq!(parse_u64("4x"), None);
    assert_eq!(parse_u64("-1"), None);
    assert_eq!(parse_u64(" 5"), None);
}

#[test]
fn chars_round_trip() {
    let v = chars_of("añb€");
    assert_eq!(v, vec!['a', 'ñ', 'b', '€']);
    assert_eq!(string_from_chars(&v, 1, 3), "ñb");
    assert_eq!(string_from_chars(&v, 0, 4), "añb€");
    assert_eq!(char_utf8_len('a'), 1);
    assert_eq!(char_utf8_len('ñ'), 2);
    assert_eq!(char_utf8_len('€'), 3);
    assert_eq!(char_utf8_len('🟢'), 4);
}

#[test]
fn char_index_at_byte_finds_boundaries() {
    assert_eq!(char_index_at_byte("añb", 0), Some(0));
    assert_eq!(char_index_at_byte("añb", 1), Some(1));
    assert_eq!(char_index_at_byte("añb", 2), None);
    assert_eq!(char_index_at_byte("añb", 3), Some(2));
    assert_eq!(char_index_at_byte("añb", 4), Some(3));
    assert_eq!(char_index_at_byte("añb", 5), None);
    assert_eq!(char_index_at_byte("", 0), Some(0));
}

#[test]
fn text_lines_split_like_str_lines() {
    assert_eq!(text_lines("a\nb"), vec!["a", "b"]);
    assert_eq!(text_lines("a\r\nb\n"), vec!["a", "b"]);
    assert_eq!(text_lines("a\n\nb"), vec!["a", "", "b"]);
    assert_eq!(text_lines("\n"), vec![""]);
    assert!(text_lines("").is_empty());
    assert_eq!(text_lines("one line"), vec!["one line"]);
    assert_eq!(text_lines("x\r\r\ny"), vec!["x\r", "y"]);
}
