use sokuten::inject::{
    build_key_events, check_sent, u32_decimal, encode_char_utf16, encode_utf16, make_unicode_input,
    InjectError, KeyInput, INPUT_KEYBOARD, KEYEVENTF_KEYUP, KEYEVENTF_UNICODE,
};

#[test]
fn empty_text_returns_error() {
    let result = build_key_events("");
    assert!(result.is_err());
    assert!(result.unwrap_err().message().contains("empty string"));
}

#[test]
fn make_unicode_input_keydown_flags() {
    let input = make_unicode_input(0x0041, false); // 'A'
    let flags = input.flags;
    assert_eq!(flags, KEYEVENTF_UNICODE);
}

#[test]
fn make_unicode_input_keyup_flags() {
    let input = make_unicode_input(0x0041, true); // 'A' keyup
    let flags = input.flags;
    assert_eq!(flags, KEYEVENTF_UNICODE | KEYEVENTF_KEYUP);
}

#[test]
fn make_unicode_input_scan_code() {
    let input = make_unicode_input(0x4E2D, false); // CJK '中'
    let scan = input.scan;
    assert_eq!(scan, 0x4E2D);
}

#[test]
fn make_unicode_input_other_fields() {
    let input = make_unicode_input(0x20AC, true);
    assert_eq!(
        input,
        KeyInput {
            input_type: INPUT_KEYBOARD,
            vk: 0,
            scan: 0x20AC,
            flags: 0x0006,
            time: 0,
            extra_info: 0,
        }
    );
    assert_eq!(KEYEVENTF_UNICODE, 0x0004);
    assert_eq!(KEYEVENTF_KEYUP, 0x0002);
    assert_eq!(INPUT_KEYBOARD, 1);
}

#[test]
fn utf16_matches_std_encoding() {
    for text in [
        "A",
        "Hello, World!",
        "中文 العربية 😀🦀",
        "\u{FFFF}\u{10000}\u{10FFFF}\u{E000}\u{D7FF}",
        "",
    ] {
        let expected: Vec<u16> = text.encode_utf16().collect();
        assert_eq!(encode_utf16(text), expected, "text {text:?}");
    }
}

#[test]
fn utf16_surrogate_pair_for_emoji() {
    let mut out = Vec::new();
    encode_char_utf16('😀', &mut out);
    assert_eq!(out, vec![0xD83D, 0xDE00]);
    let mut bmp = Vec::new();
    encode_char_utf16('中', &mut bmp);
    assert_eq!(bmp, vec![0x4E2D]);
}

#[test]
fn key_events_down_then_up_per_code_unit() {
    let events = build_key_events("a😀").unwrap();
    assert_eq!(events.len(), 6);
    let units = [0x61u16, 0xD83D, 0xDE00];
    for (k, unit) in units.iter().enumerate() {
        assert_eq!(events[2 * k], make_unicode_input(*unit, false));
        assert_eq!(events[2 * k + 1], make_unicode_input(*unit, true));
    }
}

#[test]
fn large_text_gives_two_events_per_unit() {
    let big: String = "A".repeat(10_001);
    let events = build_key_events(&big).unwrap();
    assert_eq!(events.len(), 20_002);
}

#[test]
fn sent_count_is_checked() {
    assert_eq!(check_sent(6, 6), Ok(()));
    assert_eq!(
        check_sent(4, 6),
        Err(InjectError::Blocked {
            sent: 4,
            expected: 6
        })
    );
}

#[test]
fn blocked_message_text() {
    let err = InjectError::Blocked {
        sent: 4,
        expected: 106,
    };
    assert_eq!(
        err.message(),
        "SendInput accepted 4/106 events — input may have been blocked by a privileged window"
    );
    assert_eq!(
        InjectError::EmptyText.message(),
        "send_text called with empty string — nothing to inject"
    );
}

#[test]
fn utf16_round_trips_every_sample_char() {
    for c in ['\0', 'A', 'é', '中', '\u{D7FF}', '\u{E000}', '\u{FFFF}', '\u{10000}', '😀', '\u{10FFFF}'] {
        let mut units = Vec::new();
        encode_char_utf16(c, &mut units);
        let decoded: Vec<char> = char::decode_utf16(units.iter().copied())
            .map(|r| r.unwrap())
            .collect();
        assert_eq!(decoded, vec![c]);
        if (c as u32) < 0x10000 {
            assert_eq!(units, vec![c as u32 as u16]);
        } else {
            assert!((0xD800..=0xDBFF).contains(&units[0]));
            assert!((0xDC00..=0xDFFF).contains(&units[1]));
        }
    }
}

#[test]
fn decimal_matches_display() {
    for n in [0u32, 7, 9, 10, 42, 100, 65_535, 1_000_000, u32::MAX] {
        assert_eq!(u32_decimal(n), n.to_string());
    }
}
