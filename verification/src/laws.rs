//! Properties of the application's behaviour that span several operations.

use vstd::prelude::*;
use crate::phrases::{AppConfig, PhraseModel, default_config};
use crate::text::{trimmed, trim_front, trim_back, is_white_space, contains_seq, lowercase};
use crate::inject::{key_events, unicode_input, utf16_of, utf16_of_char, KEYEVENTF_KEYUP, KEYEVENTF_UNICODE, INPUT_KEYBOARD};
use crate::tray::TrayCommand;
use crate::hotkey::{HOTKEY_PASTE_RECENT, HOTKEY_SHOW_HIDE};
use crate::ui::{
    AppModel,
    PasteState,
    PastePoll,
    VisibilityChange,
    AppCommand,
    AppEvent,
    after_add,
    after_event,
    event_commands,
    filtered,
    enter_target,
    after_finish_paste,
    after_arrows,
    after_frame_start,
    after_list_frame,
    after_poll,
    after_toggle_compact,
    after_toggle_theme,
    after_toggle_visibility,
    after_trigger_paste,
    config_of,
    elapsed_ms,
    initial_model,
    matching_indices,
    phrase_matches,
    poll_outcome,
    visibility_change,
};

verus! {

/// Showing and hiding: two toggles of the window, with no paste in progress,
/// bring the window back to where it was (and leave the search bar due for focus).
pub proof fn lemma_toggle_visibility_twice(m: AppModel)
    requires
        m.paste_state is Idle,
    ensures
        after_toggle_visibility(after_toggle_visibility(m)) == (AppModel { just_shown: true, ..m }),
{
}

/// While a paste waits for focus to move, toggling the window does nothing,
/// so the text cannot be injected into this window.
pub proof fn lemma_toggle_ignored_while_pasting(m: AppModel)
    requires
        m.paste_state is AwaitingFocus,
    ensures
        after_toggle_visibility(m) == m,
        visibility_change(m) == VisibilityChange::Ignored,
{
}

/// Compact mode and the theme are toggles: switching twice changes nothing.
pub proof fn lemma_mode_toggles_are_involutions(m: AppModel)
    ensures
        after_toggle_compact(after_toggle_compact(m)) == m,
        after_toggle_theme(after_toggle_theme(m)) == m,
{
}

/// What is loaded is what is saved back: the configuration snapshot of the
/// start-up state is the loaded configuration, except that compact mode is
/// off when there are no phrases.
pub proof fn lemma_config_survives_startup(cfg: AppConfig, phrases: Seq<PhraseModel>)
    ensures
        phrases.len() > 0 ==> config_of(initial_model(cfg, phrases)) == cfg,
        phrases.len() == 0 ==> config_of(initial_model(cfg, phrases)) == (AppConfig {
            compact_mode: false,
            ..cfg
        }),
{
}

/// A configuration that could not be loaded re-shows the disclaimer.
pub proof fn lemma_default_reshows_disclaimer(phrases: Seq<PhraseModel>)
    ensures
        !initial_model(default_config(), phrases).disclaimer_accepted,
{
}

/// The paste state machine: after a paste of phrase `idx` is started at
/// `start`, a check at `now` waits while fewer than the delay's milliseconds
/// have passed, changing nothing; once they have, it injects that very
/// phrase (if it still exists) and becomes idle.
pub proof fn lemma_paste_fires_after_delay(m: AppModel, idx: usize, start: u64, now: u64)
    ensures
        ({
            let t = after_trigger_paste(m, idx, start);
            &&& elapsed_ms(now, start) < m.paste_delay_ms ==> poll_outcome(t, now) == PastePoll::Waiting
                && after_poll(t, now) == t
            &&& elapsed_ms(now, start) >= m.paste_delay_ms && idx < m.phrases.len() ==> poll_outcome(t, now)
                == PastePoll::Inject(idx) && after_poll(t, now).paste_state == PasteState::Idle
            &&& elapsed_ms(now, start) >= m.paste_delay_ms && idx >= m.phrases.len() ==> poll_outcome(t, now)
                == PastePoll::Missing && after_poll(t, now).paste_state == PasteState::Idle
        }),
{
}

/// A paste hides the window, and it stays hidden (toggles are ignored) until
/// the paste has been carried out.
pub proof fn lemma_paste_keeps_window_hidden(m: AppModel, idx: usize, start: u64)
    ensures
        !after_trigger_paste(m, idx, start).window_visible,
        !after_toggle_visibility(after_trigger_paste(m, idx, start)).window_visible,
{
}

/// The search filter is exact and ordered: an index is listed if and only if
/// it is one of the first `n` phrases and matches the query, and the listed
/// indices strictly increase.
pub proof fn lemma_filter_exact(ps: Seq<PhraseModel>, q: Seq<char>, n: nat)
    requires
        n <= ps.len(),
        n <= usize::MAX,
    ensures
        forall|j: usize| #[trigger] matching_indices(ps, q, n).contains(j) <==> (j < n && phrase_matches(ps[j as int], q)),
        forall|j: usize| #[trigger] matching_indices(ps, q, n).contains(j) <==> (j < n && (q.len() == 0
            || contains_seq(lowercase(ps[j as int].label), q) || contains_seq(lowercase(ps[j as int].text), q))),
        forall|a: int, b: int|
            0 <= a < b < matching_indices(ps, q, n).len() ==> #[trigger] matching_indices(ps, q, n)[a]
                < #[trigger] matching_indices(ps, q, n)[b],
        forall|a: int| 0 <= a < matching_indices(ps, q, n).len() ==> #[trigger] matching_indices(ps, q, n)[a] < n,
    decreases n,
{
    if n > 0 {
        lemma_filter_exact(ps, q, (n - 1) as nat);
        let prev = matching_indices(ps, q, (n - 1) as nat);
        let cur = matching_indices(ps, q, n);
        let x = (n - 1) as usize;
        assert(x == n - 1);
        if phrase_matches(ps[n - 1], q) {
            assert(cur == prev.push(x));
            assert forall|j: usize| #[trigger] cur.contains(j) <==> (j < n && phrase_matches(ps[j as int], q)) by {
                if cur.contains(j) {
                    let k = choose|k: int| 0 <= k < cur.len() && cur[k] == j;
                    if k < prev.len() {
                        assert(prev[k] == j);
                        assert(prev.contains(j));
                    } else {
                        assert(j == x);
                    }
                }
                if j < n && phrase_matches(ps[j as int], q) {
                    if j == x {
                        assert(cur[prev.len() as int] == j);
                    } else {
                        assert(prev.contains(j));
                        let k = choose|k: int| 0 <= k < prev.len() && prev[k] == j;
                        assert(cur[k] == j);
                    }
                }
            }
            assert forall|a: int, b: int| 0 <= a < b < cur.len() implies #[trigger] cur[a] < #[trigger] cur[b] by {
                if b < prev.len() {
                    assert(prev[a] < prev[b]);
                } else {
                    assert(prev[a] < n - 1);
                }
            }
            assert forall|a: int| 0 <= a < cur.len() implies #[trigger] cur[a] < n by {
                if a < prev.len() {
                    assert(prev[a] < n - 1);
                }
            }
        } else {
            assert(cur == prev);
            assert forall|j: usize| #[trigger] cur.contains(j) <==> (j < n && phrase_matches(ps[j as int], q)) by {
                if prev.contains(j) {
                    let k = choose|k: int| 0 <= k < prev.len() && prev[k] == j;
                    assert(prev[k] < n - 1);
                }
            }
        }
    }
}

/// With an empty (lower-cased) query every phrase is listed, in order.
pub proof fn lemma_empty_query_lists_all(ps: Seq<PhraseModel>, q: Seq<char>, n: nat)
    requires
        q.len() == 0,
    ensures
        matching_indices(ps, q, n) == Seq::new(n, |i: int| i as usize),
    decreases n,
{
    if n > 0 {
        lemma_empty_query_lists_all(ps, q, (n - 1) as nat);
        assert(matching_indices(ps, q, n) =~= Seq::new(n, |i: int| i as usize));
    }
}

/// Keyboard navigation stays on the list: after Down the selection is a
/// row of the list (row 0 of an empty list); Up from a row of the list
/// stays on the list and never goes above the first row.
pub proof fn lemma_arrows_stay_in_list(sel: Option<usize>, len: nat)
    ensures
        after_arrows(sel, len, true, false) matches Some(s) && (s < len || (len == 0 && s == 0)),
        (sel matches Some(i) && i < len) ==> (after_arrows(sel, len, false, true) matches Some(s)
            && s < len),
        after_arrows(None, len, false, true) == Some(0usize),
{
}

/// Deleting a phrase keeps the selection within the remaining phrases.
pub proof fn lemma_delete_keeps_selection_in_bounds(
    m: AppModel,
    new_sel: Option<usize>,
    to_paste: Option<usize>,
    d: usize,
    now: u64,
)
    requires
        d < m.phrases.len(),
    ensures
        ({
            let r = after_list_frame(m, new_sel, to_paste, Some(d), now);
            &&& r.phrases.len() == m.phrases.len() - 1
            &&& r.selected_index matches Some(s) ==> s < r.phrases.len()
        }),
{
}

/// Trimming is idempotent: a trimmed text has no leading or trailing whitespace.
pub proof fn lemma_trim_idempotent(s: Seq<char>)
    ensures
        trimmed(trimmed(s)) == trimmed(s),
        trimmed(s).len() > 0 ==> !is_white_space(trimmed(s)[0]) && !is_white_space(trimmed(s).last()),
{
    lemma_trim_front_clean(s);
    let f = trim_front(s);
    lemma_trim_back_keeps_front(f);
    lemma_trim_back_clean(f);
    lemma_trim_front_fixed(trimmed(s));
    lemma_trim_back_fixed(trimmed(s));
}

proof fn lemma_trim_front_clean(s: Seq<char>)
    ensures
        trim_front(s).len() > 0 ==> !is_white_space(trim_front(s)[0]),
    decreases s.len(),
{
    if s.len() > 0 && is_white_space(s[0]) {
        lemma_trim_front_clean(s.drop_first());
    }
}

proof fn lemma_trim_back_clean(s: Seq<char>)
    ensures
        trim_back(s).len() > 0 ==> !is_white_space(trim_back(s).last()),
    decreases s.len(),
{
    if s.len() > 0 && is_white_space(s.last()) {
        lemma_trim_back_clean(s.drop_last());
    }
}

proof fn lemma_trim_back_keeps_front(s: Seq<char>)
    ensures
        trim_back(s).len() <= s.len(),
        trim_back(s) == s.subrange(0, trim_back(s).len() as int),
    decreases s.len(),
{
    if s.len() > 0 && is_white_space(s.last()) {
        lemma_trim_back_keeps_front(s.drop_last());
        assert(trim_back(s) =~= s.subrange(0, trim_back(s).len() as int));
    } else {
        assert(s =~= s.subrange(0, s.len() as int));
    }
}

proof fn lemma_trim_front_fixed(s: Seq<char>)
    requires
        s.len() > 0 ==> !is_white_space(s[0]),
    ensures
        trim_front(s) == s,
{
}

proof fn lemma_trim_back_fixed(s: Seq<char>)
    requires
        s.len() > 0 ==> !is_white_space(s.last()),
    ensures
        trim_back(s) == s,
{
}

/// Every phrase that the add form creates has a non-empty label and text
/// without surrounding whitespace; a rejected submission adds nothing.
pub proof fn lemma_added_phrases_are_clean(m: AppModel, now: u64)
    ensures
        ({
            let r = after_add(m, now);
            let ok = trimmed(m.new_label).len() > 0 && trimmed(m.new_text).len() > 0;
            &&& ok ==> r.phrases.len() == m.phrases.len() + 1 && r.phrases.last().label.len() > 0
                && r.phrases.last().text.len() > 0 && trimmed(r.phrases.last().label) == r.phrases.last().label
                && trimmed(r.phrases.last().text) == r.phrases.last().text
            &&& !ok ==> r.phrases == m.phrases
        }),
{
    lemma_trim_idempotent(m.new_label);
    lemma_trim_idempotent(m.new_text);
}

/// A status is cleared once five whole seconds have passed since it was set,
/// and kept before that.
pub proof fn lemma_status_expires(m: AppModel, now: u64)
    requires
        m.status is Some,
    ensures
        now >= m.status->0.at_ms + 5000 ==> after_frame_start(m, now).status is None,
        now < m.status->0.at_ms + 5000 ==> after_frame_start(m, now).status == m.status,
{
}


/// A failed injection shows the window again with an "Error: " status, so
/// that the user sees it; a successful one leaves the window as it was.
pub proof fn lemma_failed_paste_shows_window(m: AppModel, idx: int, e: Seq<char>, now: u64)
    requires
        0 <= idx < m.phrases.len(),
    ensures
        after_finish_paste(m, idx, Err(e), now).window_visible,
        after_finish_paste(m, idx, Err(e), now).status->0.message == "Error: "@ + e,
        after_finish_paste(m, idx, Ok(()), now).window_visible == m.window_visible,
        after_finish_paste(m, idx, Ok(()), now).status->0.message == "Pasted: "@ + m.phrases[idx].label,
{
}


/// The search lists exactly the phrases whose lower-cased label or
/// lower-cased text contains the lower-cased query (every phrase for an
/// empty query), each once, in list order.
pub proof fn lemma_filtered_lists_exactly_the_matches(m: AppModel)
    requires
        m.phrases.len() <= usize::MAX,
    ensures
        forall|j: usize| #[trigger] filtered(m).contains(j) <==> (j < m.phrases.len() && (
            lowercase(m.search_query).len() == 0
            || contains_seq(lowercase(m.phrases[j as int].label), lowercase(m.search_query))
            || contains_seq(lowercase(m.phrases[j as int].text), lowercase(m.search_query)))),
        forall|a: int, b: int| 0 <= a < b < filtered(m).len() ==> #[trigger] filtered(m)[a] < #[trigger] filtered(m)[b],
{
    lemma_filter_exact(m.phrases, lowercase(m.search_query), m.phrases.len());
}

/// The injected events are, for each UTF-16 code unit of the text in order,
/// a Unicode key-down carrying that unit followed by a Unicode key-up
/// carrying it: the scans of the key-downs, in order, are exactly the units.
pub proof fn lemma_key_events_carry_the_units(units: Seq<u16>)
    ensures
        key_events(units).len() == 2 * units.len(),
        forall|i: int| 0 <= i < key_events(units).len() ==> {
            &&& (#[trigger] key_events(units)[i]).scan == units[i / 2]
            &&& key_events(units)[i].vk == 0
            &&& key_events(units)[i].input_type == INPUT_KEYBOARD
            &&& key_events(units)[i].flags == if i % 2 == 0 {
                KEYEVENTF_UNICODE
            } else {
                KEYEVENTF_UNICODE | KEYEVENTF_KEYUP
            }
        },
        Seq::new(units.len(), |k: int| key_events(units)[2 * k].scan) == units,
{
    assert(Seq::new(units.len(), |k: int| key_events(units)[2 * k].scan) =~= units);
}

/// The code units of a single character are its UTF-16 encoding.
pub proof fn lemma_utf16_of_single(c: char)
    ensures
        utf16_of(seq![c]) == utf16_of_char(c),
{
    assert(seq![c].drop_last() =~= Seq::<char>::empty());
    assert(seq![c].last() == c);
    assert(utf16_of(Seq::<char>::empty()) == Seq::<u16>::empty());
    assert(Seq::<u16>::empty() + utf16_of_char(c) =~= utf16_of_char(c));
}

/// An accepted add form appends the trimmed phrase after the existing ones,
/// which keep their order, and clears the form; a rejected one leaves the
/// phrases and the form as they were and reports an error.
pub proof fn lemma_add_appends(m: AppModel, now: u64)
    ensures
        ({
            let r = after_add(m, now);
            let label = trimmed(m.new_label);
            let text = trimmed(m.new_text);
            &&& (label.len() > 0 && text.len() > 0) ==> {
                &&& r.phrases == m.phrases.push(PhraseModel { label, text })
                &&& r.phrases.subrange(0, m.phrases.len() as int) == m.phrases
                &&& r.new_label.len() == 0
                &&& r.new_text.len() == 0
            }
            &&& !(label.len() > 0 && text.len() > 0) ==> {
                &&& r.phrases == m.phrases
                &&& r.new_label == m.new_label
                &&& r.new_text == m.new_text
                &&& r.status matches Some(st) && st.message == "Error: label and text must not be empty."@
            }
        }),
{
    let r = after_add(m, now);
    if trimmed(m.new_label).len() > 0 && trimmed(m.new_text).len() > 0 {
        assert(r.phrases.subrange(0, m.phrases.len() as int) =~= m.phrases);
    }
}

/// Deleting phrase `d` removes exactly that phrase: the ones before it keep
/// their places and the ones after it move up by one.
pub proof fn lemma_delete_removes_that_phrase(
    m: AppModel,
    new_sel: Option<usize>,
    to_paste: Option<usize>,
    d: usize,
    now: u64,
)
    requires
        d < m.phrases.len(),
    ensures
        ({
            let r = after_list_frame(m, new_sel, to_paste, Some(d), now);
            &&& r.phrases == m.phrases.remove(d as int)
            &&& r.phrases.len() == m.phrases.len() - 1
            &&& forall|i: int| 0 <= i < d ==> #[trigger] r.phrases[i] == m.phrases[i]
            &&& forall|i: int| d <= i < r.phrases.len() ==> #[trigger] r.phrases[i] == m.phrases[i + 1]
        }),
        after_list_frame(m, new_sel, to_paste, None, now).phrases == m.phrases,
{
}

/// Down moves the selection exactly one row down, staying on the last row;
/// Up moves it exactly one row up, staying on the first; with no selection
/// either selects the first row. Enter pastes the phrase of the selected row.
pub proof fn lemma_arrows_move_one_row(i: usize, len: nat, indices: Seq<usize>)
    ensures
        i + 1 < len ==> after_arrows(Some(i), len, true, false) == Some((i + 1) as usize),
        len > 0 && i + 1 >= len ==> after_arrows(Some(i), len, true, false) == Some((len - 1) as usize),
        i > 0 ==> after_arrows(Some(i), len, false, true) == Some((i - 1) as usize),
        after_arrows(Some(0), len, false, true) == Some(0usize),
        after_arrows(None, len, true, false) == Some(0usize),
        after_arrows(Some(i), len, false, false) == Some(i),
        i < indices.len() ==> enter_target(Some(i), indices, true) == Some(indices[i as int]),
        i >= indices.len() ==> enter_target(Some(i), indices, true) is None,
        enter_target(Some(i), indices, false) is None,
        enter_target(None, indices, true) is None,
{
}

/// A toggle flips exactly what it toggles.
pub proof fn lemma_toggles_flip(m: AppModel)
    ensures
        m.paste_state is Idle ==> after_toggle_visibility(m).window_visible == !m.window_visible,
        m.paste_state is Idle && !m.window_visible ==> after_toggle_visibility(m).just_shown,
        after_toggle_compact(m).compact_mode == !m.compact_mode,
        after_toggle_theme(m).theme != m.theme,
{
}

/// Each frame advances the frame counter by one, wrapping to zero.
pub proof fn lemma_frame_counter_advances(m: AppModel, now: u64)
    ensures
        after_frame_start(m, now).frame_count == (m.frame_count + 1) % 0x1_0000_0000_0000_0000,
{
}

/// The paste waits exactly `paste_delay_ms` milliseconds: a check before
/// then changes nothing, a check at or after then injects the phrase asked for.
pub proof fn lemma_paste_waits_for_the_delay(m: AppModel, idx: usize, start: u64, now: u64)
    requires
        idx < m.phrases.len(),
        start <= now,
    ensures
        now < start + m.paste_delay_ms ==> poll_outcome(after_trigger_paste(m, idx, start), now)
            == PastePoll::Waiting,
        now < start + m.paste_delay_ms ==> after_poll(after_trigger_paste(m, idx, start), now)
            == after_trigger_paste(m, idx, start),
        now >= start + m.paste_delay_ms ==> poll_outcome(after_trigger_paste(m, idx, start), now)
            == PastePoll::Inject(idx),
        now >= start + m.paste_delay_ms ==> after_poll(after_trigger_paste(m, idx, start), now).paste_state
            == PasteState::Idle,
{
}

/// Trimming removes whitespace from the two ends and nothing else: the
/// result is a contiguous part of the text, everything before and after it
/// is whitespace, and it neither starts nor ends with whitespace.
pub proof fn lemma_trim_removes_only_outer_whitespace(s: Seq<char>)
    ensures
        exists|a: int, b: int| {
            &&& 0 <= a <= b <= s.len()
            &&& trimmed(s) == s.subrange(a, b)
            &&& forall|k: int| 0 <= k < a ==> is_white_space(#[trigger] s[k])
            &&& forall|k: int| b <= k < s.len() ==> is_white_space(#[trigger] s[k])
        },
        trimmed(s).len() > 0 ==> !is_white_space(trimmed(s)[0]) && !is_white_space(trimmed(s).last()),
{
    lemma_trim_idempotent(s);
    let a = lemma_trim_front_split(s);
    let f = trim_front(s);
    let b = lemma_trim_back_split(f);
    assert(trimmed(s) == s.subrange(a, a + b));
    assert forall|k: int| a + b <= k < s.len() implies is_white_space(#[trigger] s[k]) by {
        assert(s[k] == f[k - a]);
    }
}

proof fn lemma_trim_front_split(s: Seq<char>) -> (a: int)
    ensures
        0 <= a <= s.len(),
        trim_front(s) == s.subrange(a, s.len() as int),
        forall|k: int| 0 <= k < a ==> is_white_space(#[trigger] s[k]),
    decreases s.len(),
{
    if s.len() > 0 && is_white_space(s[0]) {
        let a1 = lemma_trim_front_split(s.drop_first());
        assert(trim_front(s) =~= s.subrange(a1 + 1, s.len() as int));
        assert forall|k: int| 0 <= k < a1 + 1 implies is_white_space(#[trigger] s[k]) by {
            if k > 0 {
                assert(s[k] == s.drop_first()[k - 1]);
            }
        }
        a1 + 1
    } else {
        assert(s =~= s.subrange(0, s.len() as int));
        0
    }
}

proof fn lemma_trim_back_split(s: Seq<char>) -> (b: int)
    ensures
        0 <= b <= s.len(),
        trim_back(s) == s.subrange(0, b),
        forall|k: int| b <= k < s.len() ==> is_white_space(#[trigger] s[k]),
    decreases s.len(),
{
    if s.len() > 0 && is_white_space(s.last()) {
        let b1 = lemma_trim_back_split(s.drop_last());
        assert(trim_back(s) =~= s.subrange(0, b1));
        assert forall|k: int| b1 <= k < s.len() implies is_white_space(#[trigger] s[k]) by {
            if k < s.len() - 1 {
                assert(s[k] == s.drop_last()[k]);
            }
        }
        b1
    } else {
        assert(s =~= s.subrange(0, s.len() as int));
        s.len() as int
    }
}

/// Events: the show/hide hotkey, a tray click and "Show / Hide" each flip the
/// window (unless a paste is pending) and command exactly that; the paste
/// hotkey starts a paste of the first phrase and hides the window; "Toggle
/// Compact" flips the mode, resizes and saves; "Quit" saves and then closes,
/// changing nothing else; other hotkeys do nothing.
pub proof fn lemma_events_do_what_they_say(m: AppModel, now: u64, other: i32)
    requires
        other != HOTKEY_SHOW_HIDE,
        other != HOTKEY_PASTE_RECENT,
    ensures
        m.paste_state is Idle ==> after_event(m, AppEvent::Hotkey(HOTKEY_SHOW_HIDE), now).window_visible
            == !m.window_visible,
        m.paste_state is Idle ==> after_event(m, AppEvent::TrayLeftClick, now).window_visible == !m.window_visible,
        m.paste_state is Idle ==> after_event(m, AppEvent::Menu(TrayCommand::ToggleWindow), now).window_visible
            == !m.window_visible,
        m.paste_state is Idle && m.window_visible ==> event_commands(m, AppEvent::Hotkey(HOTKEY_SHOW_HIDE), now)
            == seq![AppCommand::HideWindow],
        m.paste_state is Idle && !m.window_visible ==> event_commands(m, AppEvent::TrayLeftClick, now)
            == seq![AppCommand::ShowWindow],
        m.paste_state is AwaitingFocus ==> event_commands(m, AppEvent::TrayLeftClick, now).len() == 0
            && after_event(m, AppEvent::TrayLeftClick, now) == m,
        m.phrases.len() > 0 ==> after_event(m, AppEvent::Hotkey(HOTKEY_PASTE_RECENT), now).paste_state
            == (PasteState::AwaitingFocus { phrase_idx: 0, started_ms: now }),
        m.phrases.len() > 0 ==> event_commands(m, AppEvent::Hotkey(HOTKEY_PASTE_RECENT), now)
            == seq![AppCommand::HideWindow],
        m.phrases.len() == 0 ==> after_event(m, AppEvent::Hotkey(HOTKEY_PASTE_RECENT), now).paste_state
            == m.paste_state,
        after_event(m, AppEvent::Menu(TrayCommand::ToggleCompact), now).compact_mode == !m.compact_mode,
        event_commands(m, AppEvent::Menu(TrayCommand::ToggleCompact), now) == seq![
            AppCommand::ResizeWindow { compact: !m.compact_mode },
            AppCommand::SaveConfig,
        ],
        after_event(m, AppEvent::Menu(TrayCommand::Quit), now) == m,
        event_commands(m, AppEvent::Menu(TrayCommand::Quit), now) == seq![AppCommand::SaveConfig, AppCommand::Close],
        after_event(m, AppEvent::Hotkey(other), now) == m,
        event_commands(m, AppEvent::Hotkey(other), now).len() == 0,
{
}

} // verus!
