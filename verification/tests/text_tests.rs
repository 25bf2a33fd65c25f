use sokuten::text::{chars_of, contains, is_whitespace_char, starts_with, trim};

#[test]
fn contains_agrees_with_std() {
    let cases = [
        ("hello world", "lo w"),
        ("hello", ""),
        ("", ""),
        ("", "a"),
        ("abc", "abcd"),
        ("aaab", "aab"),
        ("中文 العربية", "العر"),
        ("emoji 😀🦀", "🦀"),
        ("abc", "c"),
        ("abc", "x"),
    ];
    for (hay, needle) in cases {
        assert_eq!(contains(hay, needle), hay.contains(needle), "{hay:?} {needle:?}");
    }
}

#[test]
fn starts_with_agrees_with_std() {
    for (s, p) in [
        ("Error: x", "Error"),
        ("Err", "Error"),
        ("Pasted: Error", "Error"),
        ("", ""),
        ("x", ""),
    ] {
        assert_eq!(starts_with(s, p), s.starts_with(p));
    }
}

#[test]
fn whitespace_agrees_with_std() {
    for u in 0u32..0x3100 {
        if let Some(c) = char::from_u32(u) {
            assert_eq!(is_whitespace_char(c), c.is_whitespace(), "U+{u:04X}");
        }
    }
    for c in ['\u{FEFF}', '\u{200B}', '😀', '\u{10FFFF}'] {
        assert_eq!(is_whitespace_char(c), c.is_whitespace());
    }
}

#[test]
fn trim_agrees_with_std() {
    for s in [
        "  hello  ",
        "\t\n label \r\n",
        "",
        "   ",
        "\u{3000}全角\u{3000}",
        "\u{A0}x\u{2028}",
        "\u{200B}zero width\u{200B}",
        "inner  spaces kept",
    ] {
        assert_eq!(trim(s), s.trim(), "{s:?}");
    }
}

#[test]
fn chars_of_lists_characters() {
    assert_eq!(chars_of("a中😀"), vec!['a', '中', '😀']);
    assert!(chars_of("").is_empty());
}

#[test]
fn trim_is_idempotent() {
    for s in ["  a b  ", "\u{3000}x", "", " \t "] {
        let once = trim(s);
        assert_eq!(trim(&once), once);
    }
}
