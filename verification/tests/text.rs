use codex_session::text::{starts_with, trim, trim_end_matches, white_space};

#[test]
fn white_space_is_that_of_unicode() {
    for code in 0..=0x10ffff {
        if let Some(c) = char::from_u32(code) {
            assert_eq!(white_space(c), c.is_whitespace(), "{code:x}");
        }
    }
}

#[test]
fn trimming_is_that_of_strings() {
    for text in [
        "",
        " ",
        "a",
        " a",
        "a ",
        " a b ",
        "\t\n a\u{2003}\u{e4}\u{85} ",
        "\u{200b}a",
        "\u{1680}\u{1680}",
    ] {
        assert_eq!(trim(text), text.trim());
        assert_eq!(trim(trim(text)), text.trim());
    }
}

#[test]
fn trailing_characters_are_dropped() {
    for text in ["", "/", "//", "a", "a/", "a//", "/a", "a/b/", "\u{e4}/"] {
        assert_eq!(trim_end_matches(text, '/'), text.trim_end_matches('/'));
    }
    assert_eq!(trim_end_matches("a\u{e4}\u{e4}", '\u{e4}'), "a");
}

#[test]
fn prefixes_are_those_of_strings() {
    for text in ["", "a", "at", "at-", "at-x", "bt-x", "\u{e4}t-"] {
        for prefix in ["", "a", "at-", "\u{e4}"] {
            assert_eq!(starts_with(text, prefix), text.starts_with(prefix));
        }
    }
}
