//! Phrases and the persisted configuration: their values, defaults, and what a
//! load from disk yields for each way it can end.
//!
//! Reading and writing the JSON files is the application's part; this module
//! decides what those outcomes mean.

use vstd::prelude::*;

verus! {

/// A single saved phrase with a display label and the text to inject.
#[derive(Debug, Clone, PartialEq)]
pub struct Phrase {
    /// Short display label shown in the UI (must not be empty).
    pub label: String,
    /// The text that will be injected when the user triggers a paste.
    pub text: String,
}

/// The abstract value of a [`Phrase`]: its label and text as characters.
pub struct PhraseModel {
    /// The label's characters.
    pub label: Seq<char>,
    /// The text's characters.
    pub text: Seq<char>,
}

impl View for Phrase {
    type V = PhraseModel;

    open spec fn view(&self) -> PhraseModel {
        PhraseModel { label: self.label@, text: self.text@ }
    }
}

/// The abstract values of a list of phrases.
pub open spec fn phrase_models(v: Seq<Phrase>) -> Seq<PhraseModel> {
    v.map_values(|p: Phrase| p@)
}

/// UI colour theme, persisted across restarts.
#[derive(Debug, Clone, Copy, PartialEq, Eq, Structural)]
pub enum Theme {
    /// Dark background (default).
    Dark,
    /// Light background.
    Light,
}

impl Theme {
    /// The other theme.
    pub open spec fn spec_toggled(self) -> Theme {
        match self {
            Theme::Dark => Theme::Light,
            Theme::Light => Theme::Dark,
        }
    }

    /// The other theme (what the toolbar's theme button switches to).
    pub fn toggled(self) -> (t: Theme)
        ensures
            t == self.spec_toggled(),
    {
        match self {
            Theme::Dark => Theme::Light,
            Theme::Light => Theme::Dark,
        }
    }
}

impl Default for Theme {
    fn default() -> (t: Theme)
        ensures
            t == Theme::Dark,
    {
        Theme::Dark
    }
}

/// A window position `[x, y]` in logical pixels, held as the bit patterns of
/// the two `f32` coordinates (the library carries it through unchanged).
#[derive(Debug, Clone, Copy, PartialEq, Eq, Structural)]
pub struct WindowPos {
    /// Bits of the `x` coordinate.
    pub x_bits: u32,
    /// Bits of the `y` coordinate.
    pub y_bits: u32,
}

/// App configuration persisted to `config.json`.
#[derive(Debug, Clone, Copy, PartialEq, Eq, Structural)]
pub struct AppConfig {
    /// Whether the user has acknowledged the usage disclaimer.
    pub disclaimer_accepted: bool,
    /// Current UI colour theme.
    pub theme: Theme,
    /// Whether the window is in compact (phrase-list-only) mode.
    pub compact_mode: bool,
    /// Delay in milliseconds between window hide and text injection.
    pub paste_delay_ms: u32,
    /// Last known window position.
    pub window_pos: Option<WindowPos>,
}

/// Default paste delay in milliseconds: 150 ms is sufficient on modern hardware.
pub fn default_paste_delay() -> (ms: u32)
    ensures
        ms == 150,
{
    150
}

/// The configuration used when none could be loaded: disclaimer not accepted,
/// dark theme, full mode, 150 ms delay, no remembered position.
pub open spec fn default_config() -> AppConfig {
    AppConfig {
        disclaimer_accepted: false,
        theme: Theme::Dark,
        compact_mode: false,
        paste_delay_ms: 150,
        window_pos: None,
    }
}

impl Default for AppConfig {
    fn default() -> (cfg: AppConfig)
        ensures
            cfg == default_config(),
    {
        AppConfig {
            disclaimer_accepted: false,
            theme: Theme::Dark,
            compact_mode: false,
            paste_delay_ms: default_paste_delay(),
            window_pos: None,
        }
    }
}

/// How an attempt to load a stored file ended.
#[derive(Debug)]
pub enum LoadOutcome<T> {
    /// The local data directory could not be resolved.
    NoDataDir,
    /// The file does not exist (first run).
    Missing,
    /// The file exists but could not be read.
    Unreadable,
    /// The file was read but is not valid JSON of the expected shape.
    Malformed,
    /// The file was read and parsed.
    Loaded(T),
}

/// Why loading the phrases failed.
#[derive(Debug, Clone, Copy, PartialEq, Eq, Structural)]
pub enum LoadError {
    /// The local data directory could not be resolved.
    NoDataDir,
    /// The file exists but could not be read.
    Read,
    /// The file is malformed.
    Parse,
}

/// The configuration that a load yields: the parsed one, or the default
/// (which re-shows the disclaimer) whenever the file is missing, unreadable
/// or malformed, or its path cannot be resolved.
pub fn config_from_load(outcome: LoadOutcome<AppConfig>) -> (cfg: AppConfig)
    ensures
        match outcome {
            LoadOutcome::Loaded(c) => cfg == c,
            _ => cfg == default_config(),
        },
{
    match outcome {
        LoadOutcome::Loaded(c) => c,
        _ => AppConfig::default(),
    }
}

/// The phrases that a load yields: an empty list when the file does not
/// exist, the parsed list when it was read, and an error only on a genuine
/// path, I/O or parse failure.
pub fn phrases_from_load(outcome: LoadOutcome<Vec<Phrase>>) -> (r: Result<Vec<Phrase>, LoadError>)
    ensures
        match outcome {
            LoadOutcome::NoDataDir => r == Err::<Vec<Phrase>, LoadError>(LoadError::NoDataDir),
            LoadOutcome::Missing => r matches Ok(v) && v@.len() == 0,
            LoadOutcome::Unreadable => r == Err::<Vec<Phrase>, LoadError>(LoadError::Read),
            LoadOutcome::Malformed => r == Err::<Vec<Phrase>, LoadError>(LoadError::Parse),
            LoadOutcome::Loaded(v) => r == Ok::<Vec<Phrase>, LoadError>(v),
        },
{
    match outcome {
        LoadOutcome::NoDataDir => Err(LoadError::NoDataDir),
        LoadOutcome::Missing => Ok(Vec::new()),
        LoadOutcome::Unreadable => Err(LoadError::Read),
        LoadOutcome::Malformed => Err(LoadError::Parse),
        LoadOutcome::Loaded(v) => Ok(v),
    }
}

} // verus!
