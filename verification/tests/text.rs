use session_gate::text::{chars_of, is_blank, is_whitespace, matches_at, remove_all, same_text};

#[test]
fn white_space_is_what_unicode_says() {
    for c in ['\t', '\n', '\u{b}', '\u{c}', '\r', ' ', '\u{85}', '\u{a0}', '\u{1680}', '\u{2000}',
        '\u{200a}', '\u{2028}', '\u{2029}', '\u{202f}', '\u{205f}', '\u{3000}']
    {
        assert!(is_whitespace(c));
    }
    for c in ['a', '0', '\u{8}', '\u{e}', '\u{200b}', '\u{feff}', '\u{180e}'] {
        assert!(!is_whitespace(c));
    }
}

#[test]
fn white_space_agrees_with_std_on_every_character() {
    let mut n: u32 = 0;
    while n <= 0x10ffff {
        if let Some(c) = char::from_u32(n) {
            assert_eq!(is_whitespace(c), c.is_whitespace());
        }
        n += 1;
    }
}

#[test]
fn blank_means_nothing_left_after_trimming() {
    for s in ["", " ", "\t\n ", "\u{3000}\u{a0}"] {
        assert!(is_blank(s));
        assert!(s.trim().is_empty());
    }
    for s in ["a", " a ", "\u{200b}", " . "] {
        assert!(!is_blank(s));
        assert!(!s.trim().is_empty());
    }
}

#[test]
fn characters_come_out_in_order() {
    assert_eq!(chars_of("héllo"), vec!['h', 'é', 'l', 'l', 'o']);
    assert_eq!(chars_of(""), Vec::<char>::new());
}

#[test]
fn match_at_a_position() {
    let hay = chars_of("abcabc");
    let needle = chars_of("bc");
    assert!(!matches_at(&hay, &needle, 0));
    assert!(matches_at(&hay, &needle, 1));
    assert!(matches_at(&hay, &needle, 4));
    assert!(!matches_at(&hay, &needle, 5));
    assert!(!matches_at(&hay, &needle, 600));
    assert!(matches_at(&hay, &chars_of(""), 6));
    assert!(!matches_at(&hay, &chars_of(""), 7));
}

#[test]
fn same_text_compares_characters() {
    assert!(same_text("", ""));
    assert!(same_text("tok", "tok"));
    assert!(!same_text("tok", "toK"));
    assert!(!same_text("tok", "toke"));
}

#[test]
fn removal_agrees_with_replace() {
    for (s, pat) in [
        ("a<!--/-->b<!--/-->", "<!--/-->"),
        ("<!--/--><!--/-->", "<!--/-->"),
        ("aaa", "aa"),
        ("ababa", "aba"),
        ("abc", ""),
        ("", "x"),
        ("<!--/--", "<!--/-->"),
        ("xx<!--<!--/-->/-->", "<!--/-->"),
    ] {
        assert_eq!(remove_all(s, pat), s.replace(pat, ""));
    }
}

#[test]
fn removal_examples() {
    assert_eq!(remove_all("a<!--/-->b", "<!--/-->"), "ab");
    assert_eq!(remove_all("aaa", "aa"), "a");
    assert_eq!(remove_all("xx<!--<!--/-->/-->", "<!--/-->"), "xx<!--/-->");
}
