use vorto::text::{
    chars_of, parse_u32, push_str, split_whitespace, str_all_numeric, str_contains, str_eq,
    str_starts_with, string_from_chars, u32_to_string,
};

#[test]
fn parse_u32_accepts_digits_and_plus() {
    assert_eq!(parse_u32("42"), Some(42));
    assert_eq!(parse_u32("+7"), Some(7));
    assert_eq!(parse_u32("007"), Some(7));
    assert_eq!(parse_u32("4294967295"), Some(u32::MAX));
}

#[test]
fn parse_u32_rejects_what_std_rejects() {
    for s in ["", "+", "-1", "-0", "12a", " 1", "4294967296", "99999999999", "1.5"] {
        assert_eq!(parse_u32(s), None, "{s:?}");
        assert_eq!(parse_u32(s), s.parse::<u32>().ok(), "{s:?}");
    }
}

#[test]
fn parse_u32_agrees_with_std_on_samples() {
    for s in ["0", "1", "10", "65535", "123456789", "+0", "++1", "1+", "٣", "0000000000000000001"] {
        assert_eq!(parse_u32(s), s.parse::<u32>().ok(), "{s:?}");
    }
}

#[test]
fn decimal_rendering() {
    assert_eq!(u32_to_string(0), "0");
    assert_eq!(u32_to_string(7), "7");
    assert_eq!(u32_to_string(1234), "1234");
    assert_eq!(u32_to_string(u32::MAX), u32::MAX.to_string());
}

#[test]
fn split_whitespace_matches_std() {
    let samples = ["  gen 3\t15 ", "", "   ", "1 john 2", "a\u{00a0}b", "x\ny  z", "p\u{85}q\u{3000}r\u{200B}s\u{180E}t\u{1680}u\u{205F}v\u{0B}w\u{1C}x"];
    for s in samples {
        let expected: Vec<String> = s.split_whitespace().map(|w| w.to_string()).collect();
        assert_eq!(split_whitespace(s), expected, "{s:?}");
    }
}

#[test]
fn substring_tests() {
    assert!(str_contains("genesis", "nes"));
    assert!(str_contains("genesis", ""));
    assert!(!str_contains("gen", "genesis"));
    assert!(str_starts_with("genesis", "gen"));
    assert!(!str_starts_with("genesis", "nes"));
    assert!(str_eq("John", "John"));
    assert!(!str_eq("John", "1 John"));
}

#[test]
fn numeric_words() {
    assert!(str_all_numeric("123"));
    assert!(str_all_numeric(""));
    assert!(!str_all_numeric("1a"));
    assert!(!str_all_numeric("x"));
    // Numeric in the Unicode sense, not only ASCII digits.
    assert!(str_all_numeric("\u{0663}\u{0664}"));
    assert!(str_all_numeric("\u{216B}"));
}

#[test]
fn whitespace_splits_words() {
    assert_eq!(split_whitespace("a\tb  c\u{2003}d"), vec!["a", "b", "c", "d"]);
    assert_eq!(split_whitespace("abc"), vec!["abc"]);
}

#[test]
fn string_building() {
    let mut s = String::from("ab");
    push_str(&mut s, "cé");
    assert_eq!(s, "abcé");
    push_str(&mut s, "");
    assert_eq!(s, "abcé");
    let cs = chars_of("héllo");
    assert_eq!(cs, vec!['h', 'é', 'l', 'l', 'o']);
    assert_eq!(string_from_chars(&cs), "héllo");
}

#[test]
fn whitespace_agrees_with_std() {
    for n in 0u32..0x3100 {
        if let Some(c) = char::from_u32(n) {
            assert_eq!(vorto::text::is_whitespace(c), c.is_whitespace(), "{n:#x}");
        }
    }
    for c in ['\u{FEFF}', '\u{180E}', '\u{200B}', 'a', '\u{10FFFF}'] {
        assert_eq!(vorto::text::is_whitespace(c), c.is_whitespace());
    }
}
