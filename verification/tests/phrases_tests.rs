use sokuten::phrases::{
    config_from_load, default_paste_delay, phrases_from_load, AppConfig, LoadError, LoadOutcome,
    Phrase, Theme, WindowPos,
};

fn sample_phrases() -> Vec<Phrase> {
    vec![
        Phrase {
            label: "hello".to_string(),
            text: "Hello, World!".to_string(),
        },
        Phrase {
            label: "sig".to_string(),
            text: "Kind regards,\nMalik".to_string(),
        },
    ]
}

#[test]
fn missing_file_returns_empty_vec() {
    let fake_path = std::path::PathBuf::from("nonexistent_sokuten_abc123.json");
    assert!(!fake_path.exists());
    // A missing phrases file is the first run: an empty list, not an error.
    let loaded = phrases_from_load(LoadOutcome::Missing);
    assert_eq!(loaded, Ok(Vec::new()));
}

#[test]
fn config_defaults_to_disclaimer_not_accepted() {
    let result = serde_json::from_str::<serde_json::Value>("{ bad json }");
    assert!(result.is_err());
    // A malformed config file yields the default config, disclaimer not accepted.
    let cfg = config_from_load(LoadOutcome::Malformed);
    assert!(!cfg.disclaimer_accepted);
}

#[test]
fn default_paste_delay_is_150_ms() {
    assert_eq!(default_paste_delay(), 150);
}

#[test]
fn default_config_values() {
    let cfg = AppConfig::default();
    assert!(!cfg.disclaimer_accepted);
    assert_eq!(cfg.theme, Theme::Dark);
    assert!(!cfg.compact_mode);
    assert_eq!(cfg.paste_delay_ms, 150);
    assert_eq!(cfg.window_pos, None);
    assert_eq!(Theme::default(), Theme::Dark);
}

#[test]
fn theme_toggles_back_and_forth() {
    assert_eq!(Theme::Dark.toggled(), Theme::Light);
    assert_eq!(Theme::Light.toggled(), Theme::Dark);
    assert_eq!(Theme::Dark.toggled().toggled(), Theme::Dark);
}

#[test]
fn every_failed_config_load_gives_the_default() {
    let want = AppConfig::default();
    assert_eq!(config_from_load(LoadOutcome::NoDataDir), want);
    assert_eq!(config_from_load(LoadOutcome::Missing), want);
    assert_eq!(config_from_load(LoadOutcome::Unreadable), want);
    assert_eq!(config_from_load(LoadOutcome::Malformed), want);
}

#[test]
fn loaded_config_is_kept() {
    let cfg = AppConfig {
        disclaimer_accepted: true,
        theme: Theme::Light,
        compact_mode: true,
        paste_delay_ms: 320,
        window_pos: Some(WindowPos {
            x_bits: 100.5f32.to_bits(),
            y_bits: 42.0f32.to_bits(),
        }),
    };
    assert_eq!(config_from_load(LoadOutcome::Loaded(cfg)), cfg);
}

#[test]
fn phrase_load_errors() {
    assert_eq!(
        phrases_from_load(LoadOutcome::NoDataDir),
        Err(LoadError::NoDataDir)
    );
    assert_eq!(
        phrases_from_load(LoadOutcome::Unreadable),
        Err(LoadError::Read)
    );
    assert_eq!(
        phrases_from_load(LoadOutcome::Malformed),
        Err(LoadError::Parse)
    );
}

#[test]
fn loaded_phrases_are_kept() {
    let loaded = phrases_from_load(LoadOutcome::Loaded(sample_phrases()));
    assert_eq!(loaded, Ok(sample_phrases()));
}
