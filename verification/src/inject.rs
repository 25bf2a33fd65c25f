//! Text injection planning: the keyboard events that inject a text into the
//! focused window, one Unicode key-down and key-up per UTF-16 code unit.
//!
//! Sending the events to the operating system is the application's part; it
//! reports back how many were accepted, and [`check_sent`] judges that.

use vstd::prelude::*;

verus! {

broadcast use vstd::string::group_string_axioms;

/// `INPUT.type` of a keyboard event.
pub const INPUT_KEYBOARD: u32 = 1;

/// Key-event flag: the key is being released.
pub const KEYEVENTF_KEYUP: u32 = 0x0002;

/// Key-event flag: `scan` carries a UTF-16 code unit, not a scan code.
pub const KEYEVENTF_UNICODE: u32 = 0x0004;

/// One keyboard input event, with the fields of the system's `INPUT`/`KEYBDINPUT`.
#[derive(Debug, Clone, Copy, PartialEq, Eq, Structural)]
pub struct KeyInput {
    /// The input type (always [`INPUT_KEYBOARD`] here).
    pub input_type: u32,
    /// Virtual-key code; 0 when `scan` carries a Unicode code unit.
    pub vk: u16,
    /// The UTF-16 code unit.
    pub scan: u16,
    /// Event flags.
    pub flags: u32,
    /// Time stamp (0: the system provides one).
    pub time: u32,
    /// Extra information (none).
    pub extra_info: usize,
}

/// The event for `code_unit`, key-down or key-up.
pub open spec fn unicode_input(code_unit: u16, key_up: bool) -> KeyInput {
    KeyInput {
        input_type: INPUT_KEYBOARD,
        vk: 0,
        scan: code_unit,
        flags: if key_up {
            KEYEVENTF_UNICODE | KEYEVENTF_KEYUP
        } else {
            KEYEVENTF_UNICODE
        },
        time: 0,
        extra_info: 0,
    }
}

/// Constructs a single Unicode key event: virtual key 0, the code unit in
/// `scan`, and the Unicode flag, with the key-up flag added for a release.
pub fn make_unicode_input(code_unit: u16, key_up: bool) -> (r: KeyInput)
    ensures
        r == unicode_input(code_unit, key_up),
{
    let mut flags = KEYEVENTF_UNICODE;
    if key_up {
        flags = flags | KEYEVENTF_KEYUP;
    }
    KeyInput { input_type: INPUT_KEYBOARD, vk: 0, scan: code_unit, flags, time: 0, extra_info: 0 }
}

/// The UTF-16 encoding of one character: its value when it lies in the Basic
/// Multilingual Plane, otherwise a high and a low surrogate.
pub open spec fn utf16_of_char(c: char) -> Seq<u16> {
    let u = c as u32;
    if u < 0x10000 {
        seq![u as u16]
    } else {
        let v = (u - 0x10000) as u32;
        seq![(0xD800 + v / 0x400) as u16, (0xDC00 + v % 0x400) as u16]
    }
}

/// The UTF-16 encoding of a character sequence.
pub open spec fn utf16_of(s: Seq<char>) -> Seq<u16>
    decreases s.len(),
{
    if s.len() == 0 {
        Seq::empty()
    } else {
        utf16_of(s.drop_last()) + utf16_of_char(s.last())
    }
}

/// The value that a one- or two-unit UTF-16 sequence stands for.
pub open spec fn utf16_value(units: Seq<u16>) -> int {
    if units.len() == 1 {
        units[0] as int
    } else {
        0x10000 + (units[0] - 0xD800) * 0x400 + (units[1] - 0xDC00)
    }
}


/// UTF-16 encoding is correct for every character: a character of the Basic
/// Multilingual Plane becomes the one unit equal to its value (never a
/// surrogate); any other becomes a high surrogate followed by a low
/// surrogate; and decoding the units gives back the character's value.
pub proof fn lemma_utf16_char_round_trip(c: char)
    ensures
        (c as u32) < 0x10000 ==> {
            &&& utf16_of_char(c).len() == 1
            &&& utf16_of_char(c)[0] == c as u32
            &&& !(0xD800 <= utf16_of_char(c)[0] <= 0xDFFF)
        },
        (c as u32) >= 0x10000 ==> {
            &&& utf16_of_char(c).len() == 2
            &&& 0xD800 <= utf16_of_char(c)[0] <= 0xDBFF
            &&& 0xDC00 <= utf16_of_char(c)[1] <= 0xDFFF
        },
        utf16_value(utf16_of_char(c)) == c as u32,
{
    let u = c as u32;
    if u >= 0x10000 {
        let v = (u - 0x10000) as u32;
        assert(v < 0x100000);
        assert(v / 0x400 < 0x400);
        assert(0x400 * (v / 0x400) + v % 0x400 == v);
    }
}

/// Encoding a concatenation encodes each part: the code units of a text are
/// those of its characters, one after another.
pub proof fn lemma_utf16_of_concat(a: Seq<char>, b: Seq<char>)
    ensures
        utf16_of(a + b) == utf16_of(a) + utf16_of(b),
    decreases b.len(),
{
    if b.len() == 0 {
        assert(a + b =~= a);
        assert(utf16_of(a) + utf16_of(b) =~= utf16_of(a));
    } else {
        lemma_utf16_of_concat(a, b.drop_last());
        assert((a + b).drop_last() =~= a + b.drop_last());
        assert((a + b).last() == b.last());
        assert(utf16_of(a + b) =~= utf16_of(a) + utf16_of(b.drop_last()) + utf16_of_char(b.last()));
    }
}

/// UTF-16 encoding of one character.
pub fn encode_char_utf16(c: char, out: &mut Vec<u16>)
    ensures
        final(out)@ == old(out)@ + utf16_of_char(c),
{
    let u = c as u32;
    if u < 0x10000 {
        out.push(u as u16);
    } else {
        let v = u - 0x10000;
        out.push((0xD800 + v / 0x400) as u16);
        out.push((0xDC00 + v % 0x400) as u16);
    }
}

/// The UTF-16 code units of `text` (what `str::encode_utf16` yields).
pub fn encode_utf16(text: &str) -> (r: Vec<u16>)
    ensures
        r@ == utf16_of(text@),
{
    let mut r: Vec<u16> = Vec::new();
    for c in it: text.chars()
        invariant
            it.seq() == text@,
            r@ == utf16_of(it.seq().take(it.index() as int)),
    {
        proof {
            let s = it.seq().take(it.index() + 1);
            assert(s.drop_last() =~= it.seq().take(it.index() as int));
        }
        encode_char_utf16(c, &mut r);
    }
    proof {
        assert(text@.take(text@.len() as int) =~= text@);
    }
    r
}

/// The events that inject a sequence of code units: for each unit in order,
/// its key-down then its key-up.
pub open spec fn key_events(units: Seq<u16>) -> Seq<KeyInput> {
    Seq::new(2 * units.len(), |i: int| unicode_input(units[i / 2], i % 2 == 1))
}

/// Why an injection failed.
#[derive(Debug, Clone, Copy, PartialEq, Eq, Structural)]
pub enum InjectError {
    /// The text is empty: there is nothing to inject.
    EmptyText,
    /// The system accepted fewer events than were sent (a privileged window
    /// may have blocked the input).
    Blocked {
        /// Events accepted.
        sent: u32,
        /// Events sent.
        expected: u32,
    },
}

/// Plans the injection of `text`: an error for an empty text, otherwise a
/// key-down and a key-up for every UTF-16 code unit of the text, in order.
pub fn build_key_events(text: &str) -> (r: Result<Vec<KeyInput>, InjectError>)
    ensures
        text@.len() == 0 ==> r == Err::<Vec<KeyInput>, InjectError>(InjectError::EmptyText),
        text@.len() > 0 ==> (r matches Ok(ev) && ev@ == key_events(utf16_of(text@))),
        r matches Ok(ev) ==> ev@.len() == 2 * utf16_of(text@).len() && forall|i: int|
            0 <= i < ev@.len() ==> (#[trigger] ev@[i]).scan == utf16_of(text@)[i / 2] && ev@[i].flags == if i % 2
                == 0 {
                KEYEVENTF_UNICODE
            } else {
                KEYEVENTF_UNICODE | KEYEVENTF_KEYUP
            },
{
    if text.is_empty() {
        return Err(InjectError::EmptyText);
    }
    let units = encode_utf16(text);
    let mut events: Vec<KeyInput> = Vec::new();
    let mut k: usize = 0;
    while k < units.len()
        invariant
            units@ == utf16_of(text@),
            k <= units.len(),
            events@.len() == 2 * k,
            forall|i: int| 0 <= i < 2 * k ==> #[trigger] events@[i] == unicode_input(units@[i / 2], i % 2 == 1),
        decreases units.len() - k,
    {
        events.push(make_unicode_input(units[k], false));
        events.push(make_unicode_input(units[k], true));
        k = k + 1;
    }
    assert(events@ =~= key_events(units@));
    assert(forall|i: int| 0 <= i < events@.len() ==> (#[trigger] events@[i]).scan == units@[i / 2]
        && events@[i].flags == if i % 2 == 0 {
            KEYEVENTF_UNICODE
        } else {
            KEYEVENTF_UNICODE | KEYEVENTF_KEYUP
        });
    Ok(events)
}

/// Judges the system's answer: success only when every sent event was accepted.
pub fn check_sent(sent: u32, expected: u32) -> (r: Result<(), InjectError>)
    ensures
        sent == expected ==> r == Ok::<(), InjectError>(()),
        sent != expected ==> r == Err::<(), InjectError>(InjectError::Blocked { sent, expected }),
{
    if sent != expected {
        Err(InjectError::Blocked { sent, expected })
    } else {
        Ok(())
    }
}

/// The decimal digit character for `d < 10`.
pub open spec fn digit_char(d: nat) -> char {
    (48 + d) as char
}

/// The decimal representation of `n`, without leading zeros.
pub open spec fn decimal(n: nat) -> Seq<char>
    decreases n,
{
    if n < 10 {
        seq![digit_char(n)]
    } else {
        decimal(n / 10).push(digit_char(n % 10))
    }
}

/// The text of a [`InjectError::Blocked`] error.
pub open spec fn blocked_text(sent: u32, expected: u32) -> Seq<char> {
    "SendInput accepted "@ + decimal(sent as nat) + "/"@ + decimal(expected as nat)
        + " events — input may have been blocked by a privileged window"@
}

/// The one-character string of decimal digit `d`.
fn digit_str(d: u32) -> (r: &'static str)
    requires
        d < 10,
    ensures
        r@ == seq![digit_char(d as nat)],
{
    proof {
        reveal_strlit("0");
        reveal_strlit("1");
        reveal_strlit("2");
        reveal_strlit("3");
        reveal_strlit("4");
        reveal_strlit("5");
        reveal_strlit("6");
        reveal_strlit("7");
        reveal_strlit("8");
        reveal_strlit("9");
    }
    let r = if d == 0 {
        "0"
    } else if d == 1 {
        "1"
    } else if d == 2 {
        "2"
    } else if d == 3 {
        "3"
    } else if d == 4 {
        "4"
    } else if d == 5 {
        "5"
    } else if d == 6 {
        "6"
    } else if d == 7 {
        "7"
    } else if d == 8 {
        "8"
    } else {
        "9"
    };
    assert(r@ =~= seq![digit_char(d as nat)]);
    r
}

/// The decimal representation of `n` (what `{}` formats for an unsigned integer).
pub fn u32_decimal(n: u32) -> (r: String)
    ensures
        r@ == decimal(n as nat),
    decreases n,
{
    if n < 10 {
        digit_str(n).to_owned()
    } else {
        let mut s = u32_decimal(n / 10);
        s.append(digit_str(n % 10));
        s
    }
}

/// The blocked-input message for `sent` of `expected` events.
fn blocked_message(sent: u32, expected: u32) -> (r: String)
    ensures
        r@ == blocked_text(sent, expected),
{
    let mut m = "SendInput accepted ".to_owned();
    m.append(u32_decimal(sent).as_str());
    m.append("/");
    m.append(u32_decimal(expected).as_str());
    m.append(" events — input may have been blocked by a privileged window");
    m
}

impl InjectError {
    /// The message of this error.
    pub fn message(&self) -> (r: String)
        ensures
            *self == InjectError::EmptyText ==> r@
                == "send_text called with empty string — nothing to inject"@,
            *self matches InjectError::Blocked { sent, expected } ==> r@ == blocked_text(
                sent,
                expected,
            ),
    {
        match self {
            InjectError::EmptyText => "send_text called with empty string — nothing to inject".to_owned(),
            InjectError::Blocked { sent, expected } => blocked_message(*sent, *expected),
        }
    }
}

} // verus!
