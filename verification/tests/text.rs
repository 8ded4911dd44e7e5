use my_wry::text::{joined, is_whitespace, lowercase_equals, str_equal, str_less, strip_slashes, trim};

#[test]
fn trim_removes_unicode_white_space() {
    assert_eq!(trim("  a b \t\n"), "a b");
    assert_eq!(trim("\u{3000}\u{85}x\u{2028}\u{a0}"), "x");
    assert_eq!(trim("   "), "");
    assert_eq!(trim(""), "");
    assert_eq!(trim("\u{200b}x"), "\u{200b}x");
}

#[test]
fn trim_is_idempotent() {
    let once = trim(" \u{2009}名字 \u{205f}");
    assert_eq!(trim(once), once);
    assert_eq!(once, "名字");
}

#[test]
fn whitespace_matches_std() {
    for c in ['\t', '\n', '\u{b}', '\u{c}', '\r', ' ', '\u{85}', '\u{a0}', '\u{1680}', '\u{2000}',
        '\u{200a}', '\u{2028}', '\u{2029}', '\u{202f}', '\u{205f}', '\u{3000}', 'a', '\u{200b}',
        '\u{180e}', '\u{feff}', '0', '\u{1f}']
    {
        assert_eq!(is_whitespace(c), c.is_whitespace(), "{:?}", c);
    }
}

#[test]
fn strip_slashes_removes_leading_slashes_only() {
    assert_eq!(strip_slashes("//a/b/"), "a/b/");
    assert_eq!(strip_slashes("a"), "a");
    assert_eq!(strip_slashes("\\a"), "\\a");
}

#[test]
fn string_order_is_by_code_point() {
    assert!(str_less("a", "b"));
    assert!(str_less("ab", "abc"));
    assert!(!str_less("abc", "ab"));
    assert!(!str_less("x", "x"));
    assert!(str_less("Z", "a"));
    assert!(str_less("z", "é"));
    assert!(str_less("", "a"));
    assert!(!str_less("", ""));
}

#[test]
fn helpers_compare_and_join() {
    assert!(str_equal("保存", "保存"));
    assert!(!str_equal("a", "ab"));
    assert!(lowercase_equals("HtMl", "html"));
    assert!(!lowercase_equals("HTM", "html"));
    assert!(!lowercase_equals("É", "é"));
    assert_eq!(joined("a", "b"), "ab");
}
