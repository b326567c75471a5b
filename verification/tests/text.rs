use tsst::text::{
    clone_strings, contains, is_space_char, leading_timestamp, parse_u32, split_lines, string_of,
    to_chars, trim,
};

#[test]
fn trim_drops_whitespace_at_both_ends_only() {
    assert_eq!(trim("  a b \t\n"), "a b");
    assert_eq!(trim("abc"), "abc");
    assert_eq!(trim("   "), "");
    assert_eq!(trim(""), "");
    assert_eq!(trim("\u{3000}x\u{a0}"), "x");
    assert_eq!(trim(" \u{200b} "), "\u{200b}");
}

#[test]
fn trim_agrees_with_the_standard_library() {
    for s in ["", " ", "a", " a", "a ", "\r\n a  b \u{2028}", "\u{1680}\u{85}q\u{205f}", "é  ü"] {
        assert_eq!(trim(s), s.trim());
    }
}

#[test]
fn whitespace_is_the_unicode_property() {
    for n in 0u32..0x3100 {
        if let Some(c) = char::from_u32(n) {
            assert_eq!(is_space_char(c), c.is_whitespace(), "U+{:04X}", n);
        }
    }
}

#[test]
fn timestamp_is_the_first_two_tokens() {
    assert_eq!(leading_timestamp("2024-01-01 20:00:00 rest of line"), "2024-01-01 20:00:00");
    assert_eq!(leading_timestamp("  2024.01.01\t\t20:00:00"), "2024.01.01 20:00:00");
    assert_eq!(leading_timestamp("onlyone"), "");
    assert_eq!(leading_timestamp("onlyone   "), "");
    assert_eq!(leading_timestamp(""), "");
    assert_eq!(leading_timestamp("   "), "");
    assert_eq!(leading_timestamp("a b"), "a b");
}

#[test]
fn substring_search_finds_every_position() {
    assert!(contains("hello world", "hello"));
    assert!(contains("hello world", "o w"));
    assert!(contains("hello world", "world"));
    assert!(contains("hello", ""));
    assert!(contains("", ""));
    assert!(!contains("", "a"));
    assert!(!contains("hello", "hello!"));
    assert!(!contains("aaab", "aab "));
    assert!(contains("aaab", "aab"));
    assert!(contains("日本語のログ", "語の"));
}

#[test]
fn lines_end_at_line_feeds() {
    assert_eq!(split_lines("a\nb\n"), vec!["a", "b"]);
    assert_eq!(split_lines("a\r\nb"), vec!["a", "b"]);
    assert_eq!(split_lines(""), Vec::<String>::new());
    assert_eq!(split_lines("\n"), vec![""]);
    assert_eq!(split_lines("\n\n"), vec!["", ""]);
    assert_eq!(split_lines("partial"), vec!["partial"]);
    assert_eq!(split_lines("a\npartial\r"), vec!["a", "partial\r"]);
    assert_eq!(split_lines("a\rb\n"), vec!["a\rb"]);
    assert_eq!(split_lines("\r\n"), vec![""]);
}

#[test]
fn lines_agree_with_the_standard_library() {
    for s in ["", "x", "x\n", "x\r\n", "x\r", "\r", "a\n\nb", "a\r\n\r\nb\r\n", "\n\r\n\r", "é\nü"] {
        let expected: Vec<String> = s.lines().map(|l| l.to_string()).collect();
        assert_eq!(split_lines(s), expected, "{:?}", s);
    }
}

#[test]
fn decimal_numbers_parse_as_in_the_standard_library() {
    assert_eq!(parse_u32("0"), Some(0));
    assert_eq!(parse_u32("007"), Some(7));
    assert_eq!(parse_u32("+5"), Some(5));
    assert_eq!(parse_u32("4294967295"), Some(4294967295));
    assert_eq!(parse_u32("4294967296"), None);
    assert_eq!(parse_u32("99999999999999999999"), None);
    assert_eq!(parse_u32(""), None);
    assert_eq!(parse_u32("+"), None);
    assert_eq!(parse_u32("-1"), None);
    assert_eq!(parse_u32("1 "), None);
    assert_eq!(parse_u32("12a"), None);
    assert_eq!(parse_u32("++1"), None);
    assert_eq!(parse_u32("٣"), None);
    for s in ["0", "+0", "42", "4294967295", "4294967296", "", "+", "-0", "1_0", "00000000000001"] {
        assert_eq!(parse_u32(s), s.parse::<u32>().ok(), "{:?}", s);
    }
}

#[test]
fn characters_and_strings_convert_both_ways() {
    let chars = to_chars("añb");
    assert_eq!(chars, vec!['a', 'ñ', 'b']);
    assert_eq!(string_of(&chars, 1, 3), "ñb");
    assert_eq!(string_of(&chars, 2, 2), "");
    let list = vec!["x".to_string(), "yz".to_string()];
    assert_eq!(clone_strings(&list), list);
}
