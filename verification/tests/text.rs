use chat_room::text::{has_suffix, is_blank, is_whitespace, same_text};

#[test]
fn white_space_is_what_unicode_says() {
    let mut code: u32 = 0;
    while code <= 0x10FFFF {
        if let Some(c) = char::from_u32(code) {
            assert_eq!(is_whitespace(c), c.is_whitespace(), "U+{:04X}", code);
        }
        code += 1;
    }
}

#[test]
fn white_space_by_name() {
    for c in [' ', '\t', '\n', '\r', '\u{b}', '\u{c}', '\u{85}', '\u{a0}', '\u{1680}', '\u{2000}',
        '\u{200a}', '\u{2028}', '\u{2029}', '\u{202f}', '\u{205f}', '\u{3000}']
    {
        assert!(is_whitespace(c), "U+{:04X}", c as u32);
    }
    for c in ['a', '0', '_', '\u{0}', '\u{8}', '\u{e}', '\u{1f}', '\u{200b}', '\u{feff}', '\u{180e}'] {
        assert!(!is_whitespace(c), "U+{:04X}", c as u32);
    }
}

#[test]
fn blank_is_empty_after_trimming() {
    for text in ["", " ", "   ", "\t\n", " \u{3000} ", "a", " a ", "  .", "\u{200b}", "\u{0}"] {
        assert_eq!(is_blank(text), text.trim().is_empty(), "{:?}", text);
    }
}

#[test]
fn blank_texts() {
    assert!(is_blank(""));
    assert!(is_blank("   "));
    assert!(is_blank("\r\n\t "));
    assert!(!is_blank(" x "));
    assert!(!is_blank("x"));
}

#[test]
fn same_text_compares_content() {
    assert!(same_text("", ""));
    assert!(same_text("alice", "alice"));
    assert!(same_text("caf\u{e9}", "caf\u{e9}"));
    assert!(!same_text("alice", "alicf"));
    assert!(!same_text("alice", "alic"));
    assert!(!same_text("alice", "Alice"));
    assert!(!same_text("", " "));
    assert!(!same_text("cafe\u{301}", "caf\u{e9}"));
}

#[test]
fn suffix_is_matched_at_the_very_end() {
    assert!(has_suffix("cat.gif", ".gif"));
    assert!(has_suffix(".gif", ".gif"));
    assert!(has_suffix("anything", ""));
    assert!(has_suffix("", ""));
    assert!(!has_suffix("gif", ".gif"));
    assert!(!has_suffix("", ".gif"));
    assert!(!has_suffix("cat.gif.txt", ".gif"));
    assert!(!has_suffix("cat.gif\n", ".gif"));
}

#[test]
fn suffix_counts_characters_not_bytes() {
    assert!(has_suffix("\u{4f60}\u{597d}.gif", ".gif"));
    assert!(has_suffix("x\u{4f60}\u{597d}", "\u{4f60}\u{597d}"));
    assert!(!has_suffix("\u{597d}", "\u{4f60}\u{597d}"));
    for (text, suffix) in [("h\u{e9}llo", "llo"), ("h\u{e9}llo", "\u{e9}llo"), ("abc", "abcd")] {
        assert_eq!(has_suffix(text, suffix), text.ends_with(suffix));
    }
}
