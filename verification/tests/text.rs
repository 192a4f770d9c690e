//! Text primitives against the standard library.
use spotui::text::{
    chars, copy_texts, find_text, is_whitespace, join, last_part, parse_u32, parse_u64, parse_u8,
    parse_usize, same, split_lines, split_once, split_words, starts_with, strip_prefix, to_decimal,
    trim,
};

fn samples() -> Vec<&'static str> {
    vec![
        "", " ", "a", "  a  ", "a b", " a\tb\nc ", "\u{a0}x\u{3000}", "line\r\nnext\n", "\n\n", "a\r",
        "x:y:z", "no colon", "+12", "0012", "\u{e9}t\u{e9} \u{2028} \u{1680}", "tab\tinside", ":", "::",
    ]
}

#[test]
fn chars_of_a_word() {
    assert_eq!(chars("h\u{e9}"), vec!['h', '\u{e9}']);
}

#[test]
fn white_space_is_that_of_unicode() {
    for n in 0..=0x10ffffu32 {
        if let Some(c) = char::from_u32(n) {
            assert_eq!(is_whitespace(c), c.is_whitespace(), "{:x}", n);
        }
    }
}

#[test]
fn trimming_and_splitting() {
    for s in samples() {
        assert_eq!(trim(s), s.trim());
        assert_eq!(split_words(s), s.split_whitespace().collect::<Vec<_>>());
        assert_eq!(split_lines(s), s.lines().collect::<Vec<_>>());
        assert_eq!(last_part(s, ':'), s.rsplit(':').next().unwrap());
        let mut parts = s.splitn(2, ' ');
        assert_eq!(split_once(s, ' '), (parts.next().unwrap(), parts.next()));
        assert_eq!(strip_prefix(s, "a"), s.strip_prefix("a"));
        assert_eq!(starts_with(s, " "), s.starts_with(" "));
        assert_eq!(chars(s), s.chars().collect::<Vec<_>>());
        assert_eq!(join(&split_words(s), "+"), s.split_whitespace().collect::<Vec<_>>().join("+"));
    }
    assert!(same("a", "a"));
    assert!(!same("a", "A"));
}

#[test]
fn numbers() {
    let texts = [
        "", "0", "7", "+7", "-7", "++7", "+", "007", "255", "256", "4294967295", "4294967296",
        "18446744073709551615", "18446744073709551616", "99999999999999999999999", "1a", " 1",
    ];
    for s in texts {
        assert_eq!(parse_u8(s), s.parse::<u8>().ok(), "{}", s);
        assert_eq!(parse_u32(s), s.parse::<u32>().ok(), "{}", s);
        assert_eq!(parse_u64(s), s.parse::<u64>().ok(), "{}", s);
        assert_eq!(parse_usize(s), s.parse::<usize>().ok(), "{}", s);
    }
    for n in [0u64, 9, 10, 11, 99, 100, 12345, u64::MAX] {
        assert_eq!(to_decimal(n), n.to_string());
        assert_eq!(parse_u64(&to_decimal(n)), Some(n));
    }
}

#[test]
fn finding_and_copying_texts() {
    let list = vec!["a".to_string(), "b".to_string(), "b".to_string()];
    assert_eq!(find_text(&list, "b"), Some(1));
    assert_eq!(find_text(&list, "c"), None);
    assert_eq!(copy_texts(&list), list);
}
