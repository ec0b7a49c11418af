use openuo_launcher::text::{
    char_is_whitespace, chars_of, chars_match_at, clone_strings, joined, contains, find_char_in,
    format_decimal, parse_decimal, starts_with, str_eq, substring, trim,
};

#[test]
fn characters_of_a_string() {
    assert_eq!(chars_of("aé中"), vec!['a', 'é', '中']);
    assert!(chars_of("").is_empty());
}

#[test]
fn string_equality() {
    assert!(str_eq("", ""));
    assert!(str_eq("abc", "abc"));
    assert!(str_eq("密码", "密码"));
    assert!(!str_eq("abc", "abd"));
    assert!(!str_eq("abc", "ab"));
    assert!(!str_eq("", "a"));
    assert!(!str_eq("é", "e"));
}

#[test]
fn prefixes() {
    assert!(starts_with("UPDATE_AND_RESTART:v1", "UPDATE_AND_RESTART:"));
    assert!(starts_with("abc", ""));
    assert!(starts_with("", ""));
    assert!(starts_with("abc", "abc"));
    assert!(!starts_with("abc", "abcd"));
    assert!(!starts_with("abc", "b"));
    assert!(!starts_with("", "a"));
    assert!(starts_with("éa", "é"));
}

#[test]
fn occurrences() {
    assert!(contains("Microsoft Windows [Version 10.0.1]", "Windows"));
    assert!(contains("Microsoft Windows [Version 10.0.1]", "10.0"));
    assert!(contains("abc", ""));
    assert!(contains("", ""));
    assert!(contains("abc", "c"));
    assert!(contains("abc", "abc"));
    assert!(contains("aab", "ab"));
    assert!(!contains("abc", "abcd"));
    assert!(!contains("abc", "ac"));
    assert!(!contains("", "a"));
    let h = chars_of("hello");
    assert!(chars_match_at(&h, &chars_of("llo"), 2));
    assert!(!chars_match_at(&h, &chars_of("llo"), 3));
    assert!(!chars_match_at(&h, &chars_of("llo"), 9));
    assert!(chars_match_at(&h, &chars_of(""), 5));
    assert!(!chars_match_at(&h, &chars_of(""), 6));
}

#[test]
fn joining_and_cutting() {
    assert_eq!(joined("ab", "cd"), "abcd");
    assert_eq!(joined("", ""), "");
    assert_eq!(substring("héllo", 1, 3), "él");
    assert_eq!(substring("héllo", 0, 5), "héllo");
    assert_eq!(substring("héllo", 2, 2), "");
    assert_eq!(clone_strings(&vec!["a".to_string(), "b".to_string()]), vec!["a", "b"]);
}

#[test]
fn white_space() {
    for c in [' ', '\t', '\n', '\r', '\u{b}', '\u{c}', '\u{85}', '\u{a0}', '\u{1680}', '\u{2000}',
        '\u{200a}', '\u{2028}', '\u{2029}', '\u{202f}', '\u{205f}', '\u{3000}']
    {
        assert!(char_is_whitespace(c));
        assert!(c.is_whitespace());
    }
    for c in ['a', '0', '\u{0}', '\u{8}', '\u{e}', '\u{200b}', '\u{feff}', '\u{180e}', '_'] {
        assert!(!char_is_whitespace(c));
        assert!(!c.is_whitespace());
    }
}

#[test]
fn white_space_is_what_the_standard_library_takes_it_for() {
    let mut c = 0u32;
    while c <= 0x3100 {
        if let Some(ch) = char::from_u32(c) {
            assert_eq!(char_is_whitespace(ch), ch.is_whitespace());
        }
        c += 1;
    }
}

#[test]
fn trimming() {
    assert_eq!(trim("  a b \n"), "a b");
    assert_eq!(trim("a"), "a");
    assert_eq!(trim(""), "");
    assert_eq!(trim(" \t\r\n"), "");
    assert_eq!(trim("\u{3000}版本\u{a0}"), "版本");
    assert_eq!(trim(" a"), "a");
    assert_eq!(trim("a "), "a");
    for text in ["", " x ", "\n\n", "a\tb", " 中 文 "] {
        assert_eq!(trim(text), text.trim());
    }
}

#[test]
fn finding_a_character() {
    let v = chars_of("1.26.0");
    assert_eq!(find_char_in(&v, '.', 0), 1);
    assert_eq!(find_char_in(&v, '.', 1), 1);
    assert_eq!(find_char_in(&v, '.', 2), 4);
    assert_eq!(find_char_in(&v, '.', 5), 6);
    assert_eq!(find_char_in(&v, '.', 6), 6);
    assert_eq!(find_char_in(&v, 'x', 0), 6);
}

#[test]
fn reading_decimal_numbers() {
    assert_eq!(parse_decimal("0", 10), Some(0));
    assert_eq!(parse_decimal("10", 10), Some(10));
    assert_eq!(parse_decimal("11", 10), None);
    assert_eq!(parse_decimal("+10", 10), Some(10));
    assert_eq!(parse_decimal("0010", 10), Some(10));
    assert_eq!(parse_decimal("", 10), None);
    assert_eq!(parse_decimal("+", 10), None);
    assert_eq!(parse_decimal("-1", 10), None);
    assert_eq!(parse_decimal("1 ", 10), None);
    assert_eq!(parse_decimal("1_0", 100), None);
    assert_eq!(parse_decimal("0x10", 100), None);
    assert_eq!(parse_decimal("4294967295", 0xFFFF_FFFF), Some(4294967295));
    assert_eq!(parse_decimal("4294967296", 0xFFFF_FFFF), None);
    assert_eq!(parse_decimal("18446744073709551615", u64::MAX), Some(u64::MAX));
    assert_eq!(parse_decimal("18446744073709551616", u64::MAX), None);
    assert_eq!(parse_decimal("000000000000000000000000000001", 1), Some(1));
    assert_eq!(parse_decimal("5", 0), None);
    assert_eq!(parse_decimal("0", 0), Some(0));
    for text in ["0", "7", "+7", "007", "", "+", "-7", "7a", " 7", "99999999999999999999"] {
        assert_eq!(parse_decimal(text, u64::MAX), text.parse::<u64>().ok());
        assert_eq!(parse_decimal(text, 255), text.parse::<u8>().ok().map(u64::from));
    }
}

#[test]
fn writing_decimal_numbers() {
    assert_eq!(format_decimal(0), "0");
    assert_eq!(format_decimal(9), "9");
    assert_eq!(format_decimal(10), "10");
    assert_eq!(format_decimal(404), "404");
    assert_eq!(format_decimal(65535), "65535");
    assert_eq!(format_decimal(u64::MAX), "18446744073709551615");
    for n in [1u64, 12, 123, 1000, 9999, 100000] {
        assert_eq!(format_decimal(n), n.to_string());
    }
}
