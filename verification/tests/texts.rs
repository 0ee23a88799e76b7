//! Text handling.

use ds4l::text::{
    bool_text, chars_of, decimal_text, join, parse_u16, same, space, split, split_once,
    strip_prefix, trim,
};

fn strings(items: &[&str]) -> Vec<String> {
    items.iter().map(|s| s.to_string()).collect()
}

#[test]
fn trimming_agrees_with_std() {
    for s in ["", " ", "a", " a b ", "\t\r\nx\u{b}\u{c}", "\u{a0}y\u{2003}", "\u{200b}z", "\u{85}q\u{3000}"] {
        assert_eq!(trim(s), s.trim());
    }
}

#[test]
fn white_space_agrees_with_std() {
    let mut n: u32 = 0;
    while n < 0x11_0000 {
        if let Some(c) = char::from_u32(n) {
            assert_eq!(space(c), c.is_whitespace());
        }
        n += 1;
    }
}

#[test]
fn prefixes_and_splits_agree_with_std() {
    assert_eq!(strip_prefix("STATUS x", "STATUS "), Some("x"));
    assert_eq!(strip_prefix("STAT", "STATUS "), None);
    assert_eq!(strip_prefix("äb", "ä"), Some("b"));
    assert_eq!(strip_prefix("a", ""), Some("a"));
    assert_eq!(split_once("a b c", ' '), Some(("a", "b c")));
    assert_eq!(split_once("abc", ' '), None);
    assert_eq!(split_once(" a", ' '), Some(("", "a")));
    for s in ["", "a", "a,b", ",", "a,,b,"] {
        let expected: Vec<String> = s.split(',').map(|p| p.to_string()).collect();
        assert_eq!(split(s, ','), expected);
    }
}

#[test]
fn joining_agrees_with_std() {
    assert_eq!(join(&vec![], ","), "");
    assert_eq!(join(&strings(&["a"]), ","), "a");
    assert_eq!(join(&strings(&["a", "", "c"]), " + "), "a +  + c");
}

#[test]
fn numbers_agree_with_std() {
    for n in [0u64, 7, 10, 99, 100, 65535, 18446744073709551615] {
        assert_eq!(decimal_text(n), n.to_string());
    }
    for s in ["0", "7", "+7", "-7", "007", "65535", "65536", "99999999999", "", "+", "1a", " 1", "٣"] {
        assert_eq!(parse_u16(s), s.parse::<u16>().ok());
    }
    assert_eq!((bool_text(true), bool_text(false)), ("true", "false"));
}

#[test]
fn texts_are_compared_by_their_characters() {
    assert!(same("äöü", "äöü") && !same("a", "A") && !same("a", "ab"));
    assert_eq!(chars_of("aä\u{1f600}"), vec!['a', 'ä', '\u{1f600}']);
}
