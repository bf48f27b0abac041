use connect_preflight::text::{
    decimal_text, is_white_space, take_chars, trim_trailing_slashes, trim_white_space,
};

#[test]
fn white_space_is_what_the_standard_library_says() {
    for u in 0..=0x10ffffu32 {
        if let Some(c) = char::from_u32(u) {
            assert_eq!(is_white_space(c), c.is_whitespace(), "{u:x}");
        }
    }
}

#[test]
fn trimming_drops_the_ends_only() {
    for s in [
        "", " ", "\t\n ", "a", " a", "a ", "  a  b\u{3000}", "\u{2003}\u{e9} x\u{a0}", "a\u{200b} ",
    ] {
        assert_eq!(trim_white_space(s), s.trim());
    }
}

#[test]
fn trailing_slashes_are_dropped() {
    for s in ["", "/", "//", "a", "a/", "/a//", "a/b", "\u{e9}/"] {
        assert_eq!(trim_trailing_slashes(s), s.trim_end_matches('/'));
    }
}

#[test]
fn numerals_are_decimal() {
    for n in 0..=u16::MAX {
        assert_eq!(decimal_text(n), n.to_string());
    }
}

#[test]
fn taking_counts_characters() {
    assert_eq!(take_chars("h\u{e9}llo", 2), "h\u{e9}");
    assert_eq!(take_chars("h\u{e9}", 2), "h\u{e9}");
    assert_eq!(take_chars("h", 2), "h");
    assert_eq!(take_chars("h", 0), "");
}
