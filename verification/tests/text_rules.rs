use api::text::{char_is_whitespace, has_prefix, is_blank, same_text};

#[test]
fn whitespace_characters() {
    for c in ['\t', '\n', '\u{b}', '\u{c}', '\r', ' ', '\u{85}', '\u{a0}', '\u{1680}', '\u{2000}', '\u{2005}', '\u{200a}', '\u{2028}', '\u{2029}', '\u{202f}', '\u{205f}', '\u{3000}'] {
        assert!(char_is_whitespace(c), "{:?}", c);
    }
    for c in ['a', '\u{8}', '\u{e}', '\u{1f}', '\u{200b}', '\u{180e}', '\u{feff}', '\u{1fff}', '\u{200c}'] {
        assert!(!char_is_whitespace(c), "{:?}", c);
    }
    for n in 0u32..0x3100 {
        if let Some(c) = char::from_u32(n) {
            assert_eq!(char_is_whitespace(c), c.is_whitespace(), "{:#x}", n);
        }
    }
}

#[test]
fn blank_when_empty() {
    assert!(is_blank(""));
}

#[test]
fn blank_when_only_white_space() {
    assert!(is_blank(" \t\r\n\u{b}\u{c}"));
    assert!(is_blank("\u{85}\u{a0}\u{1680}\u{2000}\u{200a}\u{2028}\u{2029}\u{202f}\u{205f}\u{3000}"));
}

#[test]
fn not_blank_with_a_visible_character() {
    assert!(!is_blank("  hi  "));
    assert!(!is_blank("x"));
}

#[test]
fn zero_width_space_is_not_white_space() {
    assert!(!is_blank("\u{200b}"));
    assert!(!is_blank("\u{feff}"));
}

#[test]
fn prefix_tests() {
    assert!(has_prefix("text/event-stream; charset=utf-8", "text/event-stream"));
    assert!(has_prefix("abc", ""));
    assert!(has_prefix("abc", "abc"));
    assert!(!has_prefix("ab", "abc"));
    assert!(!has_prefix("text/html", "text/event-stream"));
    assert!(has_prefix("春の散歩", "春の"));
}

#[test]
fn same_text_compares_characters() {
    assert!(same_text("user", "user"));
    assert!(!same_text("user", "User"));
    assert!(!same_text("user", "user "));
    assert!(!same_text("", "user"));
    assert!(same_text("", ""));
}
