use dbh_insights_helper::text;

#[test]
fn white_space_is_that_of_char() {
    for c in (0..=0x10ffff).filter_map(char::from_u32) {
        assert_eq!(text::char_is_white_space(c), c.is_whitespace(), "{:?}", c);
        assert_eq!(text::char_to_lower(c), c.to_ascii_lowercase(), "{:?}", c);
    }
}

#[test]
fn trims_like_str() {
    for t in ["", " ", "a", " a b\t", "\u{2003}\u{e9}\u{2028}", "\u{200b}x"] {
        assert_eq!(text::trimmed(t), t.trim());
        assert_eq!(text::trimmed(&text::trimmed(t)), t.trim());
    }
    assert_eq!(text::without_trailing("a/b//", '/'), "a/b");
    assert_eq!(text::without_trailing("//", '/'), "");
}

#[test]
fn compares_and_searches_like_str() {
    assert!(text::same_text("\u{e9}a", "\u{e9}a"));
    assert!(!text::same_text("a", "A"));
    assert!(!text::same_text("a", "ab"));
    assert!(text::begins_with("\u{e9}ab", "\u{e9}a"));
    assert!(!text::begins_with("a", "ab"));
    assert!(text::text_contains("xxabxx", "ab"));
    assert!(text::text_contains("ab", ""));
    assert!(!text::text_contains("a.b.", ".."));
    assert!(text::bytes_contain(b"\xff\xfeNotAuthenticated\xff", b"NotAuthenticated"));
    assert!(!text::bytes_contain(b"NotAuthenticate", b"NotAuthenticated"));
    assert!(text::same_bytes(b"ab", b"ab") && !text::same_bytes(b"ab", b"ac"));
}

#[test]
fn writes_numbers_like_format() {
    for n in [0, 9, 10, 15, 16, 255, 65_535, 8_765, u64::MAX] {
        assert_eq!(text::decimal_text(n), format!("{n}"));
        assert_eq!(text::hex_text(n), format!("{n:x}"));
    }
}

#[test]
fn splits_like_str() {
    assert_eq!(text::text_before("a;b;c", ';'), "a");
    assert_eq!(text::text_before("abc", ';'), "abc");
    assert_eq!(text::text_before(";", ';'), "");
    assert_eq!(text::text_before_last("a:b:c", ':'), "a:b");
    assert_eq!(text::text_before_last("abc", ':'), "abc");
    assert_eq!(text::text_before_last("abc:", ':'), "abc");
}

#[test]
fn decodes_percent_signs() {
    assert_eq!(text::decoded("/a%20%2F%7e%E9"), "/a /~\u{e9}");
    assert_eq!(text::decoded("%%41%4"), "%A%4");
    assert_eq!(text::decoded("%2541%g0%"), "%41%g0%");
    assert_eq!(text::decoded(""), "");
}

#[test]
fn reads_utf8_or_nothing() {
    assert_eq!(text::utf8_text("h\u{e9}".as_bytes()), "h\u{e9}");
    assert_eq!(text::utf8_text(b"\xff"), "");
}
