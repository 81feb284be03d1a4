use active_lock::text::{is_control, is_whitespace, no_control_chars, trim};

#[test]
fn control_characters_match_std() {
    for u in 0u32..0x3100 {
        if let Some(c) = char::from_u32(u) {
            assert_eq!(is_control(c), c.is_control(), "{:?}", c);
            assert_eq!(is_whitespace(c), c.is_whitespace(), "{:?}", c);
        }
    }
}

#[test]
fn text_without_control_characters() {
    assert!(no_control_chars("abc é ü"));
    assert!(no_control_chars(""));
    assert!(!no_control_chars("a\u{8}"));
    assert!(!no_control_chars("\r"));
    assert!(!no_control_chars("\u{7f}"));
}

#[test]
fn trim_matches_std() {
    for s in ["", " ", "  a  ", "a", "\t\nab c\r\n", "\u{3000}x\u{2028}", " \u{a0} "] {
        assert_eq!(trim(s), s.trim());
    }
}
