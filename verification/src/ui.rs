//! The application's state and every decision it makes: the paste state
//! machine, visibility and mode toggles, search filtering, keyboard
//! navigation, phrase creation and deletion, and the status line.
//!
//! Drawing the window, reading input, talking to the system and reading or
//! writing files are the application's part: it calls these methods with
//! what happened (and the current time in milliseconds) and carries out what
//! they return.

use vstd::prelude::*;
use crate::hotkey::{HotkeyAction, HOTKEY_PASTE_RECENT, HOTKEY_SHOW_HIDE, hotkey_action};
use crate::tray::TrayCommand;
use crate::phrases::{AppConfig, Phrase, PhraseModel, Theme, WindowPos, phrase_models};
use crate::text::{
    contains,
    contains_seq,
    lowercase,
    starts_with,
    starts_with_seq,
    to_lower,
    trim,
    trimmed,
};

verus! {

broadcast use vstd::string::group_string_axioms;

/// Idle repaint interval: keeps hotkey and tray polling alive at low CPU cost.
pub const IDLE_REPAINT_MS: u64 = 100;

/// Fast repaint interval while a paste waits for its delay.
pub const PASTE_REPAINT_MS: u64 = 16;

/// Re-assert always-on-top every this many frames.
pub const TOPMOST_REASSERT_FRAMES: u64 = 10;

/// Record the window position every this many frames.
pub const POSITION_RECORD_FRAMES: u64 = 30;

/// Clear the status line after this many whole seconds.
pub const STATUS_TTL_SECS: u64 = 5;

/// Non-blocking paste delay state machine.
#[derive(Debug, Clone, Copy, PartialEq, Eq, Structural)]
pub enum PasteState {
    /// No paste in progress.
    Idle,
    /// Window hidden; waiting for focus to move to the target application.
    AwaitingFocus {
        /// Index into the phrases of the phrase to inject.
        phrase_idx: usize,
        /// When the window was hidden, in milliseconds.
        started_ms: u64,
    },
}

/// The last action's message and when it was set.
#[derive(Debug)]
pub struct Status {
    /// The message; it starts with "Error" for failures.
    pub message: String,
    /// When it was set, in milliseconds.
    pub at_ms: u64,
}

/// The abstract value of a [`Status`].
pub struct StatusModel {
    /// The message's characters.
    pub message: Seq<char>,
    /// When it was set, in milliseconds.
    pub at_ms: u64,
}

impl View for Status {
    type V = StatusModel;

    open spec fn view(&self) -> StatusModel {
        StatusModel { message: self.message@, at_ms: self.at_ms }
    }
}

/// The abstract value of an optional status.
pub open spec fn status_model(s: Option<Status>) -> Option<StatusModel> {
    match s {
        Some(st) => Some(st@),
        None => None,
    }
}

/// Top-level application state.
pub struct SokutenApp {
    /// All user-saved phrases.
    pub phrases: Vec<Phrase>,
    /// Label field of the "Add phrase" form.
    pub new_label: String,
    /// Text field of the "Add phrase" form.
    pub new_text: String,
    /// Whether the disclaimer has been accepted.
    pub disclaimer_accepted: bool,
    /// Checkbox state on the disclaimer screen.
    pub do_not_show_again: bool,
    /// The paste state machine.
    pub paste_state: PasteState,
    /// Live search / filter query.
    pub search_query: String,
    /// Index into the filtered list of the selected row.
    pub selected_index: Option<usize>,
    /// Whether the window is in compact (phrase-list-only) mode.
    pub compact_mode: bool,
    /// Current colour theme.
    pub theme: Theme,
    /// Whether the window is visible.
    pub window_visible: bool,
    /// True from when the window is shown until the search bar takes focus.
    pub just_shown: bool,
    /// Frame counter for periodic duties.
    pub frame_count: u64,
    /// Last action's message, if any.
    pub status: Option<Status>,
    /// Delay between hiding the window and injecting, in milliseconds.
    pub paste_delay_ms: u32,
    /// Last recorded window position.
    pub last_pos: Option<WindowPos>,
}

/// The abstract value of a [`SokutenApp`].
pub struct AppModel {
    pub phrases: Seq<PhraseModel>,
    pub new_label: Seq<char>,
    pub new_text: Seq<char>,
    pub disclaimer_accepted: bool,
    pub do_not_show_again: bool,
    pub paste_state: PasteState,
    pub search_query: Seq<char>,
    pub selected_index: Option<usize>,
    pub compact_mode: bool,
    pub theme: Theme,
    pub window_visible: bool,
    pub just_shown: bool,
    pub frame_count: u64,
    pub status: Option<StatusModel>,
    pub paste_delay_ms: u32,
    pub last_pos: Option<WindowPos>,
}

impl View for SokutenApp {
    type V = AppModel;

    open spec fn view(&self) -> AppModel {
        AppModel {
            phrases: phrase_models(self.phrases@),
            new_label: self.new_label@,
            new_text: self.new_text@,
            disclaimer_accepted: self.disclaimer_accepted,
            do_not_show_again: self.do_not_show_again,
            paste_state: self.paste_state,
            search_query: self.search_query@,
            selected_index: self.selected_index,
            compact_mode: self.compact_mode,
            theme: self.theme,
            window_visible: self.window_visible,
            just_shown: self.just_shown,
            frame_count: self.frame_count,
            status: status_model(self.status),
            paste_delay_ms: self.paste_delay_ms,
            last_pos: self.last_pos,
        }
    }
}

// ---------------------------------------------------------------------------
// Start-up and configuration

/// The state at start-up: the loaded configuration applied, everything else
/// empty; compact mode is forced off when there are no phrases, so that the
/// add form is visible on first run.
pub open spec fn initial_model(cfg: AppConfig, phrases: Seq<PhraseModel>) -> AppModel {
    AppModel {
        phrases,
        new_label: Seq::empty(),
        new_text: Seq::empty(),
        disclaimer_accepted: cfg.disclaimer_accepted,
        do_not_show_again: false,
        paste_state: PasteState::Idle,
        search_query: Seq::empty(),
        selected_index: None,
        compact_mode: phrases.len() > 0 && cfg.compact_mode,
        theme: cfg.theme,
        window_visible: true,
        just_shown: false,
        frame_count: 0,
        status: None,
        paste_delay_ms: cfg.paste_delay_ms,
        last_pos: cfg.window_pos,
    }
}

/// The configuration snapshot of a state.
pub open spec fn config_of(m: AppModel) -> AppConfig {
    AppConfig {
        disclaimer_accepted: m.disclaimer_accepted,
        theme: m.theme,
        compact_mode: m.compact_mode,
        paste_delay_ms: m.paste_delay_ms,
        window_pos: m.last_pos,
    }
}

/// Inner window size `(width, height)` in logical pixels for a mode.
pub open spec fn window_size(compact: bool) -> (u32, u32) {
    if compact {
        (360, 220)
    } else {
        (360, 480)
    }
}

/// Inner window size for compact or full mode: 360 x 220 or 360 x 480.
pub fn compact_window_size(compact: bool) -> (r: (u32, u32))
    ensures
        r == window_size(compact),
{
    if compact {
        (360, 220)
    } else {
        (360, 480)
    }
}

// ---------------------------------------------------------------------------
// Frames and the status line

/// The frame counter after one more frame (it wraps around).
pub open spec fn next_frame_count(c: u64) -> u64 {
    if c == u64::MAX {
        0
    } else {
        (c + 1) as u64
    }
}

/// Milliseconds from `since` to `now`, zero if `now` is earlier.
pub open spec fn elapsed_ms(now: u64, since: u64) -> u64 {
    if now >= since {
        (now - since) as u64
    } else {
        0
    }
}

/// Whether a status has been shown for its whole time to live.
pub open spec fn status_expired(s: StatusModel, now: u64) -> bool {
    elapsed_ms(now, s.at_ms) / 1000 >= STATUS_TTL_SECS
}

/// The state after the start of a frame at `now`: the counter advanced and
/// an expired status cleared.
pub open spec fn after_frame_start(m: AppModel, now: u64) -> AppModel {
    AppModel {
        frame_count: next_frame_count(m.frame_count),
        status: match m.status {
            Some(s) => if status_expired(s, now) {
                None
            } else {
                Some(s)
            },
            None => None,
        },
        ..m
    }
}

/// The periodic duties of a frame.
#[derive(Debug, Clone, Copy, PartialEq, Eq, Structural)]
pub struct FrameDuties {
    /// Re-assert always-on-top (another app may have removed it).
    pub reassert_topmost: bool,
    /// Record the window position.
    pub record_position: bool,
}

/// How many whole seconds `at_ms` lies before `now`.
pub fn age_secs(now_ms: u64, at_ms: u64) -> (r: u64)
    ensures
        r == elapsed_ms(now_ms, at_ms) / 1000,
{
    if now_ms >= at_ms {
        (now_ms - at_ms) / 1000
    } else {
        0
    }
}

/// How a status line is coloured.
#[derive(Debug, Clone, Copy, PartialEq, Eq, Structural)]
pub enum StatusTone {
    /// A success message.
    Success,
    /// A message that starts with "Error".
    Error,
}

impl SokutenApp {
    /// Builds the start-up state from the loaded configuration and phrases.
    pub fn new(config: AppConfig, phrases: Vec<Phrase>) -> (app: SokutenApp)
        ensures
            app@ == initial_model(config, phrase_models(phrases@)),
    {
        let compact = if phrases.len() == 0 {
            false
        } else {
            config.compact_mode
        };
        SokutenApp {
            phrases,
            new_label: String::new(),
            new_text: String::new(),
            disclaimer_accepted: config.disclaimer_accepted,
            do_not_show_again: false,
            paste_state: PasteState::Idle,
            search_query: String::new(),
            selected_index: None,
            compact_mode: compact,
            theme: config.theme,
            window_visible: true,
            just_shown: false,
            frame_count: 0,
            status: None,
            paste_delay_ms: config.paste_delay_ms,
            last_pos: config.window_pos,
        }
    }

    /// The configuration snapshot of the current state.
    pub fn current_config(&self) -> (cfg: AppConfig)
        ensures
            cfg == config_of(self@),
    {
        AppConfig {
            disclaimer_accepted: self.disclaimer_accepted,
            theme: self.theme,
            compact_mode: self.compact_mode,
            paste_delay_ms: self.paste_delay_ms,
            window_pos: self.last_pos,
        }
    }

    /// Starts a frame at `now_ms`: advances the frame counter (wrapping),
    /// clears the status once it has been shown for five whole seconds, and
    /// says whether this frame re-asserts always-on-top (every tenth) and
    /// records the window position (every thirtieth).
    pub fn begin_frame(&mut self, now_ms: u64) -> (d: FrameDuties)
        ensures
            final(self)@ == after_frame_start(old(self)@, now_ms),
            d.reassert_topmost == (final(self).frame_count % TOPMOST_REASSERT_FRAMES == 0),
            d.record_position == (final(self).frame_count % POSITION_RECORD_FRAMES == 0),
    {
        self.frame_count = self.frame_count.wrapping_add(1);
        let expired = match &self.status {
            Some(s) => age_secs(now_ms, s.at_ms) >= STATUS_TTL_SECS,
            None => false,
        };
        if expired {
            self.status = None;
        }
        FrameDuties {
            reassert_topmost: self.frame_count % TOPMOST_REASSERT_FRAMES == 0,
            record_position: self.frame_count % POSITION_RECORD_FRAMES == 0,
        }
    }

    /// Records the window position.
    pub fn record_position(&mut self, pos: WindowPos)
        ensures
            final(self)@ == (AppModel { last_pos: Some(pos), ..old(self)@ }),
    {
        self.last_pos = Some(pos);
    }

    /// The colour of the status line: error for a message that starts with
    /// "Error", success otherwise; none without a status.
    pub fn status_tone(&self) -> (t: Option<StatusTone>)
        ensures
            self.status is None ==> t is None,
            self.status matches Some(s) ==> t == Some(
                if starts_with_seq(s.message@, "Error"@) {
                    StatusTone::Error
                } else {
                    StatusTone::Success
                },
            ),
    {
        match &self.status {
            Some(s) => if starts_with(s.message.as_str(), "Error") {
                Some(StatusTone::Error)
            } else {
                Some(StatusTone::Success)
            },
            None => None,
        }
    }

    /// Whether the idle repaint interval applies (no paste is waiting).
    pub fn idle_repaint(&self) -> (r: bool)
        ensures
            r == (self.paste_state is Idle),
    {
        match self.paste_state {
            PasteState::Idle => true,
            PasteState::AwaitingFocus { .. } => false,
        }
    }
}


// ---------------------------------------------------------------------------
// Visibility, modes and the paste state machine

/// What a request to toggle the window did.
#[derive(Debug, Clone, Copy, PartialEq, Eq, Structural)]
pub enum VisibilityChange {
    /// Ignored: a paste is in progress, and showing the window would make
    /// the injection land in this window instead of the target.
    Ignored,
    /// The window is to be shown and focused.
    Shown,
    /// The window is to be hidden.
    Hidden,
}

/// The state after a toggle of the window's visibility.
pub open spec fn after_toggle_visibility(m: AppModel) -> AppModel {
    if m.paste_state is AwaitingFocus {
        m
    } else if m.window_visible {
        AppModel { window_visible: false, ..m }
    } else {
        AppModel { window_visible: true, just_shown: true, ..m }
    }
}

/// What a toggle of the window's visibility does.
pub open spec fn visibility_change(m: AppModel) -> VisibilityChange {
    if m.paste_state is AwaitingFocus {
        VisibilityChange::Ignored
    } else if m.window_visible {
        VisibilityChange::Hidden
    } else {
        VisibilityChange::Shown
    }
}

/// The state after a paste of phrase `idx` is started at `now`: the status,
/// search query and selection are cleared, the window is hidden, and the
/// state machine waits for focus to move.
pub open spec fn after_trigger_paste(m: AppModel, idx: usize, now: u64) -> AppModel {
    AppModel {
        status: None,
        search_query: Seq::empty(),
        selected_index: None,
        paste_state: PasteState::AwaitingFocus { phrase_idx: idx, started_ms: now },
        window_visible: false,
        ..m
    }
}

/// The error shown when the first phrase is asked for and there is none.
pub open spec fn no_phrases_text() -> Seq<char> {
    "Error: no phrases saved"@
}

/// The state after the "paste first phrase" hotkey at `now`.
pub open spec fn after_paste_most_recent(m: AppModel, now: u64) -> AppModel {
    if m.phrases.len() == 0 {
        AppModel { status: Some(StatusModel { message: no_phrases_text(), at_ms: now }), ..m }
    } else {
        after_trigger_paste(m, 0, now)
    }
}

/// What a frame's check of the paste state machine found.
#[derive(Debug, Clone, Copy, PartialEq, Eq, Structural)]
pub enum PastePoll {
    /// No paste in progress.
    Idle,
    /// A paste waits for its delay (repaint soon).
    Waiting,
    /// The delay has passed: inject the phrase at this index.
    Inject(usize),
    /// The delay has passed but the phrase no longer exists.
    Missing,
}

/// Whether a waiting paste's delay has passed at `now`.
pub open spec fn paste_ready(m: AppModel, now: u64) -> bool {
    match m.paste_state {
        PasteState::AwaitingFocus { phrase_idx, started_ms } => elapsed_ms(now, started_ms)
            >= m.paste_delay_ms,
        PasteState::Idle => false,
    }
}

/// The index of the waiting paste's phrase.
pub open spec fn pending_index(m: AppModel) -> usize {
    match m.paste_state {
        PasteState::AwaitingFocus { phrase_idx, started_ms } => phrase_idx,
        PasteState::Idle => 0,
    }
}

/// The error shown when the phrase to paste was deleted meanwhile.
pub open spec fn deleted_text() -> Seq<char> {
    "Error: phrase was deleted before paste"@
}

/// What the check of the paste state machine at `now` finds.
pub open spec fn poll_outcome(m: AppModel, now: u64) -> PastePoll {
    if paste_ready(m, now) {
        if pending_index(m) < m.phrases.len() {
            PastePoll::Inject(pending_index(m))
        } else {
            PastePoll::Missing
        }
    } else if m.paste_state is AwaitingFocus {
        PastePoll::Waiting
    } else {
        PastePoll::Idle
    }
}

/// The state after the check of the paste state machine at `now`: once the
/// delay has passed the machine is idle again, with an error status if the
/// phrase is gone.
pub open spec fn after_poll(m: AppModel, now: u64) -> AppModel {
    if paste_ready(m, now) {
        if pending_index(m) < m.phrases.len() {
            AppModel { paste_state: PasteState::Idle, ..m }
        } else {
            AppModel {
                paste_state: PasteState::Idle,
                status: Some(StatusModel { message: deleted_text(), at_ms: now }),
                ..m
            }
        }
    } else {
        m
    }
}

/// The status after an injection of phrase `idx` ended: "Pasted: " and the
/// label, or "Error: " and the failure.
pub open spec fn paste_status(m: AppModel, idx: int, outcome: Result<(), Seq<char>>, now: u64) -> StatusModel {
    match outcome {
        Ok(_) => StatusModel { message: "Pasted: "@ + m.phrases[idx].label, at_ms: now },
        Err(e) => StatusModel { message: "Error: "@ + e, at_ms: now },
    }
}

/// The state after the injection of phrase `idx` ended at `now`: the status
/// reports it, and after a failure the window is visible again.
pub open spec fn after_finish_paste(m: AppModel, idx: int, outcome: Result<(), Seq<char>>, now: u64) -> AppModel {
    AppModel {
        status: Some(paste_status(m, idx, outcome, now)),
        window_visible: if outcome is Err {
            true
        } else {
            m.window_visible
        },
        ..m
    }
}

/// The abstract value of an outcome that carries a message on failure.
pub open spec fn outcome_model(r: Result<(), String>) -> Result<(), Seq<char>> {
    match r {
        Ok(_) => Ok(()),
        Err(e) => Err(e@),
    }
}

/// The state after a toggle of compact mode.
pub open spec fn after_toggle_compact(m: AppModel) -> AppModel {
    AppModel { compact_mode: !m.compact_mode, ..m }
}

/// The state after a toggle of the theme.
pub open spec fn after_toggle_theme(m: AppModel) -> AppModel {
    AppModel { theme: m.theme.spec_toggled(), ..m }
}

impl SokutenApp {
    /// Toggles the window's visibility, unless a paste is in progress.
    pub fn toggle_window_visibility(&mut self) -> (c: VisibilityChange)
        ensures
            final(self)@ == after_toggle_visibility(old(self)@),
            c == visibility_change(old(self)@),
    {
        if let PasteState::AwaitingFocus { .. } = self.paste_state {
            return VisibilityChange::Ignored;
        }
        self.window_visible = !self.window_visible;
        if self.window_visible {
            self.just_shown = true;
            VisibilityChange::Shown
        } else {
            VisibilityChange::Hidden
        }
    }

    /// Hides the window (the Escape key).
    pub fn hide_on_escape(&mut self)
        ensures
            final(self)@ == (AppModel { window_visible: false, ..old(self)@ }),
    {
        self.window_visible = false;
    }

    /// Starts a paste of phrase `phrase_idx` at `now_ms`; the injection
    /// itself happens once the delay has passed (see [`SokutenApp::poll_paste`]).
    pub fn trigger_paste(&mut self, phrase_idx: usize, now_ms: u64)
        ensures
            final(self)@ == after_trigger_paste(old(self)@, phrase_idx, now_ms),
    {
        self.status = None;
        self.search_query = String::new();
        self.selected_index = None;
        self.paste_state = PasteState::AwaitingFocus { phrase_idx, started_ms: now_ms };
        self.window_visible = false;
    }

    /// Pastes the first phrase (the Ctrl+Shift+V hotkey); with no phrases,
    /// shows an error instead. Returns whether a paste was started.
    pub fn paste_most_recent(&mut self, now_ms: u64) -> (started: bool)
        ensures
            final(self)@ == after_paste_most_recent(old(self)@, now_ms),
            started == (old(self)@.phrases.len() > 0),
    {
        if self.phrases.len() == 0 {
            self.status = Some(Status { message: "Error: no phrases saved".to_owned(), at_ms: now_ms });
            return false;
        }
        self.trigger_paste(0, now_ms);
        true
    }

    /// Checks at `now_ms` whether a waiting paste's delay has passed.
    pub fn poll_paste(&mut self, now_ms: u64) -> (p: PastePoll)
        ensures
            final(self)@ == after_poll(old(self)@, now_ms),
            p == poll_outcome(old(self)@, now_ms),
    {
        let ghost m = self@;
        match self.paste_state {
            PasteState::AwaitingFocus { phrase_idx, started_ms } => {
                let elapsed = if now_ms >= started_ms {
                    now_ms - started_ms
                } else {
                    0
                };
                if elapsed >= self.paste_delay_ms as u64 {
                    self.paste_state = PasteState::Idle;
                    if phrase_idx < self.phrases.len() {
                        PastePoll::Inject(phrase_idx)
                    } else {
                        self.status = Some(
                            Status {
                                message: "Error: phrase was deleted before paste".to_owned(),
                                at_ms: now_ms,
                            },
                        );
                        PastePoll::Missing
                    }
                } else {
                    PastePoll::Waiting
                }
            },
            PasteState::Idle => PastePoll::Idle,
        }
    }

    /// Records how the injection of phrase `phrase_idx` ended. On failure
    /// the window is shown again so that the user sees the error; returns
    /// whether that is so.
    pub fn finish_paste(&mut self, phrase_idx: usize, outcome: Result<(), String>, now_ms: u64) -> (restore: bool)
        requires
            phrase_idx < old(self).phrases.len(),
        ensures
            final(self)@ == after_finish_paste(old(self)@, phrase_idx as int, outcome_model(outcome), now_ms),
            restore == (outcome is Err),
    {
        match outcome {
            Ok(()) => {
                let mut msg = "Pasted: ".to_owned();
                msg.append(self.phrases[phrase_idx].label.as_str());
                self.status = Some(Status { message: msg, at_ms: now_ms });
                false
            },
            Err(e) => {
                let mut msg = "Error: ".to_owned();
                msg.append(e.as_str());
                self.status = Some(Status { message: msg, at_ms: now_ms });
                self.window_visible = true;
                true
            },
        }
    }

    /// Toggles compact mode; returns the new mode.
    pub fn toggle_compact(&mut self) -> (compact: bool)
        ensures
            final(self)@ == after_toggle_compact(old(self)@),
            compact == final(self).compact_mode,
    {
        self.compact_mode = !self.compact_mode;
        self.compact_mode
    }

    /// Switches between the dark and the light theme; returns the new theme.
    pub fn toggle_theme(&mut self) -> (t: Theme)
        ensures
            final(self)@ == after_toggle_theme(old(self)@),
            t == final(self).theme,
    {
        self.theme = self.theme.toggled();
        self.theme
    }

    /// Accepts the disclaimer; returns whether the choice is to be saved
    /// ("Do not show this again" was ticked).
    pub fn accept_disclaimer(&mut self) -> (persist: bool)
        ensures
            final(self)@ == (AppModel { disclaimer_accepted: true, ..old(self)@ }),
            persist == old(self).do_not_show_again,
    {
        self.disclaimer_accepted = true;
        self.do_not_show_again
    }

    /// Whether the search bar is to take focus now that the window was
    /// shown; the request is consumed.
    pub fn take_just_shown(&mut self) -> (focus: bool)
        ensures
            final(self)@ == (AppModel { just_shown: false, ..old(self)@ }),
            focus == old(self).just_shown,
    {
        let focus = self.just_shown;
        self.just_shown = false;
        focus
    }
}


// ---------------------------------------------------------------------------
// Search, navigation and the phrase list

/// Whether a phrase matches a lower-cased query: every phrase matches the
/// empty query; otherwise the query must occur in the lower-cased label or
/// the lower-cased text.
pub open spec fn query_matches(query_lower: Seq<char>, label_lower: Seq<char>, text_lower: Seq<char>) -> bool {
    query_lower.len() == 0 || contains_seq(label_lower, query_lower) || contains_seq(text_lower, query_lower)
}

/// Whether phrase `p` matches the lower-cased query `q` (case-insensitive
/// substring search on label and text).
pub open spec fn phrase_matches(p: PhraseModel, q: Seq<char>) -> bool {
    query_matches(q, lowercase(p.label), lowercase(p.text))
}

/// The indices, in increasing order, of the first `n` phrases that match `q`.
pub open spec fn matching_indices(ps: Seq<PhraseModel>, q: Seq<char>, n: nat) -> Seq<usize>
    decreases n,
{
    if n == 0 {
        Seq::empty()
    } else {
        let prev = matching_indices(ps, q, (n - 1) as nat);
        if phrase_matches(ps[n - 1], q) {
            prev.push((n - 1) as usize)
        } else {
            prev
        }
    }
}

/// The indices of the phrases that a state's search query selects.
pub open spec fn filtered(m: AppModel) -> Seq<usize> {
    matching_indices(m.phrases, lowercase(m.search_query), m.phrases.len())
}

/// Decides whether a phrase matches a query, given the lower-cased query,
/// label and text.
pub fn query_matches_lowered(query_lower: &str, label_lower: &str, text_lower: &str) -> (r: bool)
    ensures
        r == query_matches(query_lower@, label_lower@, text_lower@),
{
    query_lower.is_empty() || contains(label_lower, query_lower) || contains(text_lower, query_lower)
}

/// The selection after the arrow keys: Down moves one row down but not past
/// the last row of a list of `len` rows (row 0 for an empty list), Up moves
/// one row up but not above the first; with no selection either key selects
/// the first row.
pub open spec fn after_arrows(sel: Option<usize>, len: nat, down: bool, up: bool) -> Option<usize> {
    let max_sel: int = if len == 0 {
        0
    } else {
        len - 1
    };
    let s1 = if down {
        Some(
            match sel {
                None => 0usize,
                Some(i) => if i + 1 <= max_sel {
                    (i + 1) as usize
                } else {
                    max_sel as usize
                },
            },
        )
    } else {
        sel
    };
    if up {
        Some(
            match s1 {
                None => 0usize,
                Some(i) => if i == 0 {
                    0usize
                } else {
                    (i - 1) as usize
                },
            },
        )
    } else {
        s1
    }
}

/// The phrase that Enter pastes: the one at the selected row, if there is such a row.
pub open spec fn enter_target(sel: Option<usize>, indices: Seq<usize>, enter: bool) -> Option<usize> {
    if enter && sel is Some && sel->0 < indices.len() {
        Some(indices[sel->0 as int])
    } else {
        None
    }
}

/// The selection after phrase `deleted` was removed, leaving `len` phrases:
/// a selection past the end moves to the last phrase, or to none.
pub open spec fn selection_after_delete(sel: Option<usize>, len: nat) -> Option<usize> {
    match sel {
        Some(s) => if s >= len {
            if len == 0 {
                None
            } else {
                Some((len - 1) as usize)
            }
        } else {
            Some(s)
        },
        None => None,
    }
}

/// The state at the end of a frame of the phrase list: the selection set
/// from the rows' clicks, then a paste started, then a phrase deleted.
pub open spec fn after_list_frame(
    m: AppModel,
    new_sel: Option<usize>,
    to_paste: Option<usize>,
    to_delete: Option<usize>,
    now: u64,
) -> AppModel {
    let m1 = AppModel { selected_index: new_sel, ..m };
    let m2 = match to_paste {
        Some(i) => after_trigger_paste(m1, i, now),
        None => m1,
    };
    match to_delete {
        Some(d) => {
            let ps = m2.phrases.remove(d as int);
            AppModel {
                phrases: ps,
                selected_index: selection_after_delete(m2.selected_index, ps.len()),
                ..m2
            }
        },
        None => m2,
    }
}

/// The status after the phrases were saved following a change: `ok_text`
/// on success, "Error: save failed: " and the failure otherwise.
pub open spec fn save_status(ok_text: Seq<char>, outcome: Result<(), Seq<char>>, now: u64) -> StatusModel {
    match outcome {
        Ok(_) => StatusModel { message: ok_text, at_ms: now },
        Err(e) => StatusModel { message: "Error: save failed: "@ + e, at_ms: now },
    }
}

/// The error shown when the add form is submitted with an empty field.
pub open spec fn empty_field_text() -> Seq<char> {
    "Error: label and text must not be empty."@
}

/// The state after the add form is submitted at `now`: label and text are
/// trimmed; if either is then empty an error is shown, otherwise the phrase
/// is appended and the form cleared.
pub open spec fn after_add(m: AppModel, now: u64) -> AppModel {
    let label = trimmed(m.new_label);
    let text = trimmed(m.new_text);
    if label.len() == 0 || text.len() == 0 {
        AppModel { status: Some(StatusModel { message: empty_field_text(), at_ms: now }), ..m }
    } else {
        AppModel {
            phrases: m.phrases.push(PhraseModel { label, text }),
            new_label: Seq::empty(),
            new_text: Seq::empty(),
            ..m
        }
    }
}

/// What the list frame asks the application to do.
#[derive(Debug, Clone, Copy, PartialEq, Eq, Structural)]
pub struct ListEffects {
    /// A paste was started: hide the window.
    pub pasted: bool,
    /// A phrase was deleted: save the phrases.
    pub deleted: bool,
}

proof fn lemma_models_remove(v: Seq<Phrase>, d: int)
    requires
        0 <= d < v.len(),
    ensures
        phrase_models(v.remove(d)) == phrase_models(v).remove(d),
{
    assert(phrase_models(v.remove(d)) =~= phrase_models(v).remove(d));
}

proof fn lemma_models_push(v: Seq<Phrase>, p: Phrase)
    ensures
        phrase_models(v.push(p)) == phrase_models(v).push(p@),
{
    assert(phrase_models(v.push(p)) =~= phrase_models(v).push(p@));
}

impl SokutenApp {
    /// The indices of the phrases that match the search query, in order
    /// (case-insensitive substring search on label and text; all phrases for
    /// an empty query).
    pub fn filtered_phrase_indices(&self) -> (r: Vec<usize>)
        ensures
            r@ == filtered(self@),
    {
        let q = to_lower(self.search_query.as_str());
        let mut r: Vec<usize> = Vec::new();
        let mut i: usize = 0;
        while i < self.phrases.len()
            invariant
                q@ == lowercase(self@.search_query),
                i <= self.phrases.len(),
                r@ == matching_indices(self@.phrases, q@, i as nat),
            decreases self.phrases.len() - i,
        {
            let p = &self.phrases[i];
            let label_lower = to_lower(p.label.as_str());
            let text_lower = to_lower(p.text.as_str());
            if query_matches_lowered(q.as_str(), label_lower.as_str(), text_lower.as_str()) {
                r.push(i);
            }
            i = i + 1;
        }
        r
    }

    /// Applies the arrow keys to the selection over the filtered rows
    /// `indices`, then returns the phrase that Enter pastes, if any.
    pub fn handle_list_keys(&mut self, indices: &Vec<usize>, arrow_down: bool, arrow_up: bool, enter: bool) -> (to_paste: Option<usize>)
        ensures
            final(self)@ == (AppModel {
                selected_index: after_arrows(old(self).selected_index, indices@.len(), arrow_down, arrow_up),
                ..old(self)@
            }),
            to_paste == enter_target(final(self).selected_index, indices@, enter),
    {
        let len = indices.len();
        let max_sel = if len == 0 {
            0
        } else {
            len - 1
        };
        if arrow_down {
            self.selected_index = Some(
                match self.selected_index {
                    None => 0,
                    Some(i) => if i < max_sel {
                        i + 1
                    } else {
                        max_sel
                    },
                },
            );
        }
        if arrow_up {
            self.selected_index = Some(
                match self.selected_index {
                    None => 0,
                    Some(i) => if i == 0 {
                        0
                    } else {
                        i - 1
                    },
                },
            );
        }
        if enter {
            if let Some(sel) = self.selected_index {
                if sel < indices.len() {
                    return Some(indices[sel]);
                }
            }
        }
        None
    }

    /// Ends a frame of the phrase list: sets the selection from the rows'
    /// clicks, starts the paste a row asked for, and deletes the phrase a
    /// row asked to delete (keeping the selection within the list).
    pub fn finish_list_frame(
        &mut self,
        new_sel: Option<usize>,
        to_paste: Option<usize>,
        to_delete: Option<usize>,
        now_ms: u64,
    ) -> (e: ListEffects)
        requires
            to_delete matches Some(d) ==> d < old(self).phrases.len(),
        ensures
            final(self)@ == after_list_frame(old(self)@, new_sel, to_paste, to_delete, now_ms),
            e == (ListEffects { pasted: to_paste is Some, deleted: to_delete is Some }),
    {
        self.selected_index = new_sel;
        if let Some(i) = to_paste {
            self.trigger_paste(i, now_ms);
        }
        if let Some(d) = to_delete {
            proof {
                lemma_models_remove(self.phrases@, d as int);
            }
            self.phrases.remove(d);
            if let Some(sel) = self.selected_index {
                if sel >= self.phrases.len() {
                    self.selected_index = if self.phrases.len() == 0 {
                        None
                    } else {
                        Some(self.phrases.len() - 1)
                    };
                }
            }
        }
        ListEffects { pasted: to_paste.is_some(), deleted: to_delete.is_some() }
    }

    /// Records how saving the phrases after a deletion ended.
    pub fn deletion_saved(&mut self, outcome: Result<(), String>, now_ms: u64)
        ensures
            final(self)@ == (AppModel {
                status: Some(save_status("Phrase deleted."@, outcome_model(outcome), now_ms)),
                ..old(self)@
            }),
    {
        let msg = match outcome {
            Ok(()) => "Phrase deleted.".to_owned(),
            Err(e) => {
                let mut m = "Error: save failed: ".to_owned();
                m.append(e.as_str());
                m
            },
        };
        self.status = Some(Status { message: msg, at_ms: now_ms });
    }

    /// Submits the add form at `now_ms`; returns whether a phrase was added
    /// (then the phrases are to be saved).
    pub fn add_phrase(&mut self, now_ms: u64) -> (added: bool)
        ensures
            final(self)@ == after_add(old(self)@, now_ms),
            added == (trimmed(old(self)@.new_label).len() > 0 && trimmed(old(self)@.new_text).len() > 0),
    {
        let label = trim(self.new_label.as_str());
        let text = trim(self.new_text.as_str());
        if label.as_str().is_empty() || text.as_str().is_empty() {
            self.status = Some(
                Status { message: "Error: label and text must not be empty.".to_owned(), at_ms: now_ms },
            );
            return false;
        }
        let p = Phrase { label, text };
        proof {
            lemma_models_push(self.phrases@, p);
        }
        self.phrases.push(p);
        self.new_label = String::new();
        self.new_text = String::new();
        true
    }

    /// Records how saving the phrases after an addition ended: "Added: " and
    /// the new phrase's label, or the failure.
    pub fn addition_saved(&mut self, outcome: Result<(), String>, now_ms: u64)
        requires
            old(self).phrases.len() > 0,
        ensures
            final(self)@ == (AppModel {
                status: Some(save_status(
                    "Added: "@ + old(self)@.phrases.last().label,
                    outcome_model(outcome),
                    now_ms,
                )),
                ..old(self)@
            }),
    {
        let msg = match outcome {
            Ok(()) => {
                let mut m = "Added: ".to_owned();
                m.append(self.phrases[self.phrases.len() - 1].label.as_str());
                m
            },
            Err(e) => {
                let mut m = "Error: save failed: ".to_owned();
                m.append(e.as_str());
                m
            },
        };
        self.status = Some(Status { message: msg, at_ms: now_ms });
    }

    /// Notes an edit of the search query (its previous value given): a
    /// changed query clears the selection, since the rows changed.
    pub fn query_edited(&mut self, previous: &String)
        ensures
            final(self)@ == (AppModel {
                selected_index: if old(self)@.search_query != previous@ {
                    None
                } else {
                    old(self).selected_index
                },
                ..old(self)@
            }),
    {
        if self.search_query != *previous {
            self.selected_index = None;
        }
    }

    /// Clears the search query and the selection.
    pub fn clear_search(&mut self)
        ensures
            final(self)@ == (AppModel { search_query: Seq::empty(), selected_index: None, ..old(self)@ }),
    {
        self.search_query = String::new();
        self.selected_index = None;
    }
}


// ---------------------------------------------------------------------------
// Routing of hotkey and tray events

/// An event from outside the window: a hotkey, a tray click or a tray menu item.
#[derive(Debug, Clone, Copy, PartialEq, Eq, Structural)]
pub enum AppEvent {
    /// A registered hotkey with this ID was pressed.
    Hotkey(i32),
    /// The tray icon was left-clicked (button released).
    TrayLeftClick,
    /// A tray menu item was chosen.
    Menu(TrayCommand),
}

/// What the application must do to the window or on disk.
#[derive(Debug, Clone, Copy, PartialEq, Eq, Structural)]
pub enum AppCommand {
    /// Show the window and give it focus.
    ShowWindow,
    /// Hide the window.
    HideWindow,
    /// Resize the window for compact or full mode.
    ResizeWindow {
        /// The new mode.
        compact: bool,
    },
    /// Save the current configuration.
    SaveConfig,
    /// Close the application.
    Close,
}

/// The window commands of a toggle of the window's visibility.
pub open spec fn visibility_commands(m: AppModel) -> Seq<AppCommand> {
    match visibility_change(m) {
        VisibilityChange::Ignored => Seq::empty(),
        VisibilityChange::Shown => seq![AppCommand::ShowWindow],
        VisibilityChange::Hidden => seq![AppCommand::HideWindow],
    }
}

/// The state after an event at `now`: the show/hide hotkey, a tray click
/// and the "Show / Hide" item toggle the window; the paste hotkey pastes the
/// first phrase; "Toggle Compact" toggles compact mode; "Quit" and unknown
/// hotkeys change nothing.
pub open spec fn after_event(m: AppModel, ev: AppEvent, now: u64) -> AppModel {
    match ev {
        AppEvent::Hotkey(id) => if id == HOTKEY_SHOW_HIDE {
            after_toggle_visibility(m)
        } else if id == HOTKEY_PASTE_RECENT {
            after_paste_most_recent(m, now)
        } else {
            m
        },
        AppEvent::TrayLeftClick => after_toggle_visibility(m),
        AppEvent::Menu(TrayCommand::ToggleWindow) => after_toggle_visibility(m),
        AppEvent::Menu(TrayCommand::ToggleCompact) => after_toggle_compact(m),
        AppEvent::Menu(TrayCommand::Quit) => m,
    }
}

/// The commands of an event: the window shown or hidden by a toggle (none
/// when a paste is in progress), the window hidden when a paste starts, a
/// resize and a save after a change of mode, and a save before closing on
/// "Quit".
pub open spec fn event_commands(m: AppModel, ev: AppEvent, now: u64) -> Seq<AppCommand> {
    match ev {
        AppEvent::Hotkey(id) => if id == HOTKEY_SHOW_HIDE {
            visibility_commands(m)
        } else if id == HOTKEY_PASTE_RECENT {
            if m.phrases.len() > 0 {
                seq![AppCommand::HideWindow]
            } else {
                Seq::empty()
            }
        } else {
            Seq::empty()
        },
        AppEvent::TrayLeftClick => visibility_commands(m),
        AppEvent::Menu(TrayCommand::ToggleWindow) => visibility_commands(m),
        AppEvent::Menu(TrayCommand::ToggleCompact) => seq![
            AppCommand::ResizeWindow { compact: !m.compact_mode },
            AppCommand::SaveConfig,
        ],
        AppEvent::Menu(TrayCommand::Quit) => seq![AppCommand::SaveConfig, AppCommand::Close],
    }
}

impl SokutenApp {
    /// Whether the frame shows the disclaimer (not yet accepted) instead of
    /// the main interface.
    pub fn shows_disclaimer(&self) -> (r: bool)
        ensures
            r == !self.disclaimer_accepted,
    {
        !self.disclaimer_accepted
    }

    fn visibility_commands(&mut self) -> (cmds: Vec<AppCommand>)
        ensures
            final(self)@ == after_toggle_visibility(old(self)@),
            cmds@ == visibility_commands(old(self)@),
    {
        let mut cmds: Vec<AppCommand> = Vec::new();
        match self.toggle_window_visibility() {
            VisibilityChange::Ignored => {},
            VisibilityChange::Shown => cmds.push(AppCommand::ShowWindow),
            VisibilityChange::Hidden => cmds.push(AppCommand::HideWindow),
        }
        proof {
            assert(cmds@ =~= visibility_commands(old(self)@));
        }
        cmds
    }

    /// Handles an event at `now_ms` and returns, in order, what the
    /// application must then do.
    pub fn handle_event(&mut self, ev: AppEvent, now_ms: u64) -> (cmds: Vec<AppCommand>)
        ensures
            final(self)@ == after_event(old(self)@, ev, now_ms),
            cmds@ == event_commands(old(self)@, ev, now_ms),
    {
        let mut cmds: Vec<AppCommand> = Vec::new();
        match ev {
            AppEvent::Hotkey(id) => match hotkey_action(id) {
                Some(HotkeyAction::ToggleWindow) => {
                    cmds = self.visibility_commands();
                },
                Some(HotkeyAction::PasteMostRecent) => {
                    if self.paste_most_recent(now_ms) {
                        cmds.push(AppCommand::HideWindow);
                    }
                },
                None => {},
            },
            AppEvent::TrayLeftClick => {
                cmds = self.visibility_commands();
            },
            AppEvent::Menu(TrayCommand::ToggleWindow) => {
                cmds = self.visibility_commands();
            },
            AppEvent::Menu(TrayCommand::ToggleCompact) => {
                let compact = self.toggle_compact();
                cmds.push(AppCommand::ResizeWindow { compact });
                cmds.push(AppCommand::SaveConfig);
            },
            AppEvent::Menu(TrayCommand::Quit) => {
                cmds.push(AppCommand::SaveConfig);
                cmds.push(AppCommand::Close);
            },
        }
        proof {
            assert(cmds@ =~= event_commands(old(self)@, ev, now_ms));
        }
        cmds
    }
}

} // verus!
