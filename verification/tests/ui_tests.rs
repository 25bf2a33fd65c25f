use sokuten::phrases::{AppConfig, Phrase, Theme, WindowPos};
use sokuten::tray::TrayCommand;
use sokuten::ui::{
    age_secs, compact_window_size, AppCommand, AppEvent, ListEffects, PastePoll, PasteState, SokutenApp, StatusTone,
    VisibilityChange,
};

fn phrase(label: &str, text: &str) -> Phrase {
    Phrase {
        label: label.to_string(),
        text: text.to_string(),
    }
}

fn sample_app() -> SokutenApp {
    let cfg = AppConfig {
        disclaimer_accepted: true,
        theme: Theme::Light,
        compact_mode: true,
        paste_delay_ms: 150,
        window_pos: None,
    };
    SokutenApp::new(
        cfg,
        vec![
            phrase("hello", "Hello, World!"),
            phrase("sig", "Kind regards,\nMalik"),
            phrase("Meeting", "See you at NOON"),
        ],
    )
}

fn status_text(app: &SokutenApp) -> Option<String> {
    app.status.as_ref().map(|s| s.message.clone())
}

#[test]
fn startup_applies_config() {
    let app = sample_app();
    assert!(app.disclaimer_accepted);
    assert_eq!(app.theme, Theme::Light);
    assert!(app.compact_mode);
    assert!(app.window_visible);
    assert_eq!(app.paste_state, PasteState::Idle);
    assert_eq!(app.frame_count, 0);
}

#[test]
fn first_run_forces_full_mode() {
    let cfg = AppConfig {
        compact_mode: true,
        ..AppConfig::default()
    };
    let app = SokutenApp::new(cfg, Vec::new());
    assert!(!app.compact_mode);
}

#[test]
fn config_survives_startup() {
    let cfg = AppConfig {
        disclaimer_accepted: true,
        theme: Theme::Light,
        compact_mode: true,
        paste_delay_ms: 230,
        window_pos: Some(WindowPos {
            x_bits: 12.5f32.to_bits(),
            y_bits: 80.0f32.to_bits(),
        }),
    };
    let app = SokutenApp::new(cfg, vec![phrase("a", "b")]);
    assert_eq!(app.current_config(), cfg);
}

#[test]
fn window_sizes() {
    assert_eq!(compact_window_size(true), (360, 220));
    assert_eq!(compact_window_size(false), (360, 480));
}

#[test]
fn toggle_visibility_twice_restores() {
    let mut app = sample_app();
    assert_eq!(app.toggle_window_visibility(), VisibilityChange::Hidden);
    assert!(!app.window_visible);
    assert_eq!(app.toggle_window_visibility(), VisibilityChange::Shown);
    assert!(app.window_visible);
    assert!(app.take_just_shown());
    assert!(!app.take_just_shown());
}

#[test]
fn toggle_ignored_during_paste() {
    let mut app = sample_app();
    app.trigger_paste(1, 1_000);
    assert!(!app.window_visible);
    assert_eq!(app.toggle_window_visibility(), VisibilityChange::Ignored);
    assert!(!app.window_visible);
}

#[test]
fn paste_fires_after_delay() {
    let mut app = sample_app();
    app.search_query = "sig".to_string();
    app.selected_index = Some(0);
    app.trigger_paste(1, 1_000);
    assert_eq!(app.search_query, "");
    assert_eq!(app.selected_index, None);
    assert!(!app.idle_repaint());
    assert_eq!(app.poll_paste(1_100), PastePoll::Waiting);
    assert_eq!(app.poll_paste(1_149), PastePoll::Waiting);
    assert_eq!(app.poll_paste(1_150), PastePoll::Inject(1));
    assert_eq!(app.paste_state, PasteState::Idle);
    assert_eq!(app.poll_paste(2_000), PastePoll::Idle);
    assert!(app.idle_repaint());
    assert!(!app.finish_paste(1, Ok(()), 1_160));
    assert_eq!(status_text(&app).as_deref(), Some("Pasted: sig"));
    assert_eq!(app.status_tone(), Some(StatusTone::Success));
}

#[test]
fn failed_injection_reports_error() {
    let mut app = sample_app();
    app.trigger_paste(0, 0);
    assert_eq!(app.poll_paste(500), PastePoll::Inject(0));
    assert!(app.finish_paste(0, Err("SendInput accepted 0/2 events".to_string()), 500));
    assert_eq!(
        status_text(&app).as_deref(),
        Some("Error: SendInput accepted 0/2 events")
    );
    assert_eq!(app.status_tone(), Some(StatusTone::Error));
    assert!(app.window_visible);
}

#[test]
fn deleted_phrase_before_paste() {
    let mut app = sample_app();
    app.trigger_paste(7, 0);
    assert_eq!(app.poll_paste(150), PastePoll::Missing);
    assert_eq!(app.paste_state, PasteState::Idle);
    assert_eq!(
        status_text(&app).as_deref(),
        Some("Error: phrase was deleted before paste")
    );
}

#[test]
fn paste_most_recent_uses_first_phrase() {
    let mut app = sample_app();
    assert!(app.paste_most_recent(10));
    assert_eq!(
        app.paste_state,
        PasteState::AwaitingFocus {
            phrase_idx: 0,
            started_ms: 10
        }
    );
    let mut empty = SokutenApp::new(AppConfig::default(), Vec::new());
    assert!(!empty.paste_most_recent(10));
    assert_eq!(
        status_text(&empty).as_deref(),
        Some("Error: no phrases saved")
    );
    assert_eq!(empty.paste_state, PasteState::Idle);
}

#[test]
fn compact_and_theme_toggles() {
    let mut app = sample_app();
    assert!(!app.toggle_compact());
    assert!(app.toggle_compact());
    assert_eq!(app.toggle_theme(), Theme::Dark);
    assert_eq!(app.toggle_theme(), Theme::Light);
}

#[test]
fn filter_is_case_insensitive_on_label_and_text() {
    let mut app = sample_app();
    assert_eq!(app.filtered_phrase_indices(), vec![0, 1, 2]);
    app.search_query = "HELLO".to_string();
    assert_eq!(app.filtered_phrase_indices(), vec![0]);
    app.search_query = "noon".to_string();
    assert_eq!(app.filtered_phrase_indices(), vec![2]);
    app.search_query = "e".to_string();
    assert_eq!(app.filtered_phrase_indices(), vec![0, 1, 2]);
    app.search_query = "MALIK".to_string();
    assert_eq!(app.filtered_phrase_indices(), vec![1]);
    app.search_query = "zzz".to_string();
    assert!(app.filtered_phrase_indices().is_empty());
}

#[test]
fn arrow_keys_and_enter() {
    let mut app = sample_app();
    let indices = vec![0, 2];
    assert_eq!(app.handle_list_keys(&indices, true, false, false), None);
    assert_eq!(app.selected_index, Some(0));
    app.handle_list_keys(&indices, true, false, false);
    assert_eq!(app.selected_index, Some(1));
    app.handle_list_keys(&indices, true, false, false);
    assert_eq!(app.selected_index, Some(1));
    assert_eq!(app.handle_list_keys(&indices, false, false, true), Some(2));
    app.handle_list_keys(&indices, false, true, false);
    assert_eq!(app.selected_index, Some(0));
    app.handle_list_keys(&indices, false, true, false);
    assert_eq!(app.selected_index, Some(0));
    app.selected_index = None;
    app.handle_list_keys(&indices, false, true, false);
    assert_eq!(app.selected_index, Some(0));
    let none: Vec<usize> = Vec::new();
    app.selected_index = Some(3);
    assert_eq!(app.handle_list_keys(&none, true, false, true), None);
    assert_eq!(app.selected_index, Some(0));
}

#[test]
fn delete_keeps_selection_in_list() {
    let mut app = sample_app();
    let e = app.finish_list_frame(Some(2), None, Some(2), 100);
    assert_eq!(
        e,
        ListEffects {
            pasted: false,
            deleted: true
        }
    );
    assert_eq!(app.phrases.len(), 2);
    assert_eq!(app.selected_index, Some(1));
    app.deletion_saved(Ok(()), 100);
    assert_eq!(status_text(&app).as_deref(), Some("Phrase deleted."));
    app.finish_list_frame(Some(1), None, Some(0), 200);
    app.finish_list_frame(Some(0), None, Some(0), 300);
    assert!(app.phrases.is_empty());
    assert_eq!(app.selected_index, None);
    app.deletion_saved(Err("disk full".to_string()), 300);
    assert_eq!(
        status_text(&app).as_deref(),
        Some("Error: save failed: disk full")
    );
}

#[test]
fn list_click_and_paste() {
    let mut app = sample_app();
    let e = app.finish_list_frame(Some(1), Some(2), None, 50);
    assert!(e.pasted && !e.deleted);
    assert_eq!(app.selected_index, None);
    assert_eq!(
        app.paste_state,
        PasteState::AwaitingFocus {
            phrase_idx: 2,
            started_ms: 50
        }
    );
}

#[test]
fn add_phrase_trims_and_validates() {
    let mut app = sample_app();
    app.new_label = "  greeting \n".to_string();
    app.new_text = "\tGood morning!  ".to_string();
    assert!(app.add_phrase(5));
    assert_eq!(app.phrases.len(), 4);
    assert_eq!(app.phrases[3], phrase("greeting", "Good morning!"));
    assert_eq!(app.new_label, "");
    assert_eq!(app.new_text, "");
    app.addition_saved(Ok(()), 5);
    assert_eq!(status_text(&app).as_deref(), Some("Added: greeting"));
    app.addition_saved(Err("denied".to_string()), 6);
    assert_eq!(
        status_text(&app).as_deref(),
        Some("Error: save failed: denied")
    );

    app.new_label = "   ".to_string();
    app.new_text = "text".to_string();
    assert!(!app.add_phrase(7));
    assert_eq!(app.phrases.len(), 4);
    assert_eq!(
        status_text(&app).as_deref(),
        Some("Error: label and text must not be empty.")
    );
    assert_eq!(app.new_label, "   ");
}

#[test]
fn status_expires_after_five_seconds() {
    let mut app = sample_app();
    app.paste_most_recent(0);
    app.poll_paste(200);
    app.finish_paste(0, Ok(()), 1_000);
    app.begin_frame(5_999);
    assert!(app.status.is_some());
    app.begin_frame(6_000);
    assert!(app.status.is_none());
    assert_eq!(age_secs(6_000, 1_000), 5);
    assert_eq!(age_secs(500, 1_000), 0);
}

#[test]
fn frame_duties_and_wrapping() {
    let mut app = sample_app();
    let mut reasserts = 0;
    let mut records = 0;
    for _ in 0..60 {
        let d = app.begin_frame(0);
        if d.reassert_topmost {
            reasserts += 1;
        }
        if d.record_position {
            records += 1;
        }
    }
    assert_eq!(reasserts, 6);
    assert_eq!(records, 2);
    app.frame_count = u64::MAX;
    let d = app.begin_frame(0);
    assert_eq!(app.frame_count, 0);
    assert!(d.reassert_topmost && d.record_position);
    app.record_position(WindowPos { x_bits: 1, y_bits: 2 });
    assert_eq!(app.last_pos, Some(WindowPos { x_bits: 1, y_bits: 2 }));
}

#[test]
fn search_edit_and_clear() {
    let mut app = sample_app();
    app.selected_index = Some(1);
    let prev = app.search_query.clone();
    app.query_edited(&prev);
    assert_eq!(app.selected_index, Some(1));
    app.search_query = "x".to_string();
    app.query_edited(&prev);
    assert_eq!(app.selected_index, None);
    app.selected_index = Some(0);
    app.clear_search();
    assert_eq!(app.search_query, "");
    assert_eq!(app.selected_index, None);
}

#[test]
fn disclaimer_and_escape() {
    let mut app = SokutenApp::new(AppConfig::default(), Vec::new());
    assert!(!app.disclaimer_accepted);
    assert!(!app.accept_disclaimer());
    assert!(app.disclaimer_accepted);
    app.do_not_show_again = true;
    assert!(app.accept_disclaimer());
    app.hide_on_escape();
    assert!(!app.window_visible);
}

#[test]
fn successful_injection_keeps_window_hidden() {
    let mut app = sample_app();
    app.trigger_paste(0, 0);
    assert_eq!(app.poll_paste(150), PastePoll::Inject(0));
    assert!(!app.finish_paste(0, Ok(()), 150));
    assert!(!app.window_visible);
}

#[test]
fn events_are_routed() {
    let mut app = sample_app();
    assert!(!app.shows_disclaimer());
    assert_eq!(
        app.handle_event(AppEvent::Hotkey(1), 0),
        vec![AppCommand::HideWindow]
    );
    assert_eq!(
        app.handle_event(AppEvent::TrayLeftClick, 0),
        vec![AppCommand::ShowWindow]
    );
    assert!(app.take_just_shown());
    assert_eq!(
        app.handle_event(AppEvent::Menu(TrayCommand::ToggleWindow), 0),
        vec![AppCommand::HideWindow]
    );
    assert_eq!(app.handle_event(AppEvent::Hotkey(9), 0), vec![]);
    assert_eq!(
        app.handle_event(AppEvent::Menu(TrayCommand::ToggleCompact), 0),
        vec![AppCommand::ResizeWindow { compact: false }, AppCommand::SaveConfig]
    );
    assert!(!app.compact_mode);
    assert_eq!(
        app.handle_event(AppEvent::Hotkey(2), 7),
        vec![AppCommand::HideWindow]
    );
    assert_eq!(
        app.paste_state,
        PasteState::AwaitingFocus {
            phrase_idx: 0,
            started_ms: 7
        }
    );
    // While the paste waits, show/hide requests are ignored.
    assert_eq!(app.handle_event(AppEvent::Hotkey(1), 8), vec![]);
    assert_eq!(app.handle_event(AppEvent::TrayLeftClick, 8), vec![]);
    assert_eq!(
        app.handle_event(AppEvent::Menu(TrayCommand::Quit), 9),
        vec![AppCommand::SaveConfig, AppCommand::Close]
    );
    let mut empty = SokutenApp::new(AppConfig::default(), Vec::new());
    assert!(empty.shows_disclaimer());
    assert_eq!(empty.handle_event(AppEvent::Hotkey(2), 0), vec![]);
    assert_eq!(
        empty.status.as_ref().map(|s| s.message.clone()).as_deref(),
        Some("Error: no phrases saved")
    );
}
