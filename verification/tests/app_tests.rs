use video_downloader::app::{display_path, sanitize_path};
use video_downloader::app::CurrentScreen;
use video_downloader::deps::{RequiredTool, ToolLocation, ToolSetupStatus};
use video_downloader::history::HistoryEntry;
use video_downloader::app::{App, InputMode, InputScheme, ItemStatus};
use video_downloader::events::{
    handle_key_event, AppAction, KeyCode, KeyEvent, KeyEventKind, KeyModifiers,
};

fn press_key(code: KeyCode) -> KeyEvent {
    KeyEvent {
        code,
        modifiers: KeyModifiers { shift: false, control: false, alt: false },
        kind: KeyEventKind::Press,
    }
}

fn press_char(c: char) -> KeyEvent {
    press_key(KeyCode::Char(c))
}

fn press_ctrl(c: char) -> KeyEvent {
    KeyEvent {
        code: KeyCode::Char(c),
        modifiers: KeyModifiers { shift: false, control: true, alt: false },
        kind: KeyEventKind::Press,
    }
}

#[test]
fn test_app_initial_state() {
    let app = App::new(None, None, None);
    assert_eq!(app.input_mode, InputMode::Normal);
    assert_eq!(app.input_scheme, InputScheme::StandardModal);
    assert!(app.input_buffer.is_empty());
    assert_eq!(app.cursor_position, 0);
    assert!(app.downloads.is_empty());
    assert!(!app.should_quit);
}

#[test]
fn test_input_mode_and_typing() {
    let mut app = App::new(None, None, None);

    // In Normal mode, pressing 'i' switches to Editing
    handle_key_event(&mut app, press_char('i'));
    assert_eq!(app.input_mode, InputMode::Editing);

    // Type "http://test.com"
    for c in "http://test.com".chars() {
        handle_key_event(&mut app, press_char(c));
    }
    assert_eq!(app.input_buffer, "http://test.com");
    assert_eq!(app.cursor_position, 15);

    // Test backspace
    handle_key_event(&mut app, press_key(KeyCode::Backspace));
    assert_eq!(app.input_buffer, "http://test.co");
    assert_eq!(app.cursor_position, 14);

    // Test Esc to return to Normal mode without clearing buffer
    handle_key_event(&mut app, press_key(KeyCode::Esc));
    assert_eq!(app.input_mode, InputMode::Normal);
    assert_eq!(app.input_buffer, "http://test.co");
}

#[test]
fn test_submit_download_and_concurrent_management() {
    let mut app = App::new(None, None, None);

    // Enter editing and type URL
    handle_key_event(&mut app, press_char('i'));
    for c in "https://example.com/video1".chars() {
        handle_key_event(&mut app, press_char(c));
    }

    // Press Enter to submit
    let result = handle_key_event(&mut app, press_key(KeyCode::Enter));
    let (id1, url1) = match result {
        AppAction::StartDownload { id, url } => (id, url),
        other => panic!("expected a download to start, got {:?}", other),
    };
    assert_eq!(id1, 1);
    assert_eq!(url1, "https://example.com/video1");
    assert_eq!(app.downloads.len(), 1);
    assert_eq!(app.downloads[0].status, ItemStatus::Queued);
    assert!(app.input_buffer.is_empty());
    assert_eq!(app.input_mode, InputMode::Normal);

    // Enqueue a second download concurrently
    let id2 = app.enqueue_download("https://example.com/video2".to_string());
    assert_eq!(id2, 2);
    assert_eq!(app.downloads.len(), 2);

    // Update progress independently
    // Progress is kept in hundredths of a percent.
    app.update_progress(id1, 1, 3550);
    app.update_progress(id2, 1, 7200);

    assert_eq!(app.downloads[0].progress, 3550);
    assert_eq!(app.downloads[0].status, ItemStatus::Downloading);
    assert_eq!(app.downloads[1].progress, 7200);
    assert_eq!(app.downloads[1].status, ItemStatus::Downloading);

    // Transition track and merging
    app.update_progress(id1, 2, 8000);
    assert_eq!(app.downloads[0].track, 2);

    app.update_merging(id1);
    assert_eq!(app.downloads[0].status, ItemStatus::Merging);
    assert_eq!(app.downloads[0].progress, 10000);

    app.update_success(id1, None);
    assert_eq!(app.downloads[0].status, ItemStatus::Completed);

    app.update_error(id2, "Network error 404".to_string(), None);
    assert_eq!(
        app.downloads[1].status,
        ItemStatus::Failed("Network error 404".to_string())
    );
}

#[test]
fn test_vim_keybinding_scheme() {
    let mut app = App::new(None, None, None);

    // Toggle to Vim mode using F2
    handle_key_event(&mut app, press_key(KeyCode::F(2)));
    assert_eq!(app.input_scheme, InputScheme::Vim);

    // Press 'i' to insert text
    handle_key_event(&mut app, press_char('i'));
    assert_eq!(app.input_mode, InputMode::Editing);
    for c in "video.mp4".chars() {
        handle_key_event(&mut app, press_char(c));
    }
    assert_eq!(app.input_buffer, "video.mp4");

    // Press Esc to return to Normal mode
    handle_key_event(&mut app, press_key(KeyCode::Esc));
    assert_eq!(app.input_mode, InputMode::Normal);

    // In Vim normal mode, '0' moves cursor to beginning
    handle_key_event(&mut app, press_char('0'));
    assert_eq!(app.cursor_position, 0);

    // In Vim normal mode, 'x' deletes char under cursor ('v')
    handle_key_event(&mut app, press_char('x'));
    assert_eq!(app.input_buffer, "ideo.mp4");

    // In Vim normal mode, '$' moves cursor to end
    handle_key_event(&mut app, press_char('$'));
    assert_eq!(app.cursor_position, 8);

    // Toggle back with F2
    handle_key_event(&mut app, press_key(KeyCode::F(2)));
    assert_eq!(app.input_scheme, InputScheme::StandardModal);
}

#[test]
fn test_detail_modal_open_scroll_and_dismiss() {
    let mut app = App::new(None, None, None);
    let id = app.enqueue_download("https://test.com/fail".to_string());
    for i in 1..=10 {
        app.append_log(id, format!("Log line {}", i));
    }
    app.update_error(id, "Crash".to_string(), None);

    // Press 'e' in normal mode to open modal
    handle_key_event(&mut app, press_char('e'));
    assert!(app.detail_modal.is_some());
    let modal = app.detail_modal.as_ref().unwrap();
    assert_eq!(modal.scroll_offset, 0);
    assert_eq!(modal.logs.len(), 11); // 10 logs + 1 error line

    // Press 'j' or Down to scroll modal
    handle_key_event(&mut app, press_char('j'));
    assert_eq!(app.detail_modal.as_ref().unwrap().scroll_offset, 1);

    handle_key_event(&mut app, press_char('k'));
    assert_eq!(app.detail_modal.as_ref().unwrap().scroll_offset, 0);

    // Press Esc to dismiss modal
    handle_key_event(&mut app, press_key(KeyCode::Esc));
    assert!(app.detail_modal.is_none());
}

#[test]
fn test_path_modal_open_via_p_in_standard_modal() {
    let mut app = App::new(None, None, None);
    assert!(app.path_modal.is_none());
    handle_key_event(&mut app, press_char('p'));
    assert!(app.path_modal.is_some());
    assert_eq!(app.path_modal.as_ref().unwrap().input, app.output_dir);
}

#[test]
fn test_path_modal_open_via_p_in_vim_mode() {
    let mut app = App::new(None, None, None);
    handle_key_event(&mut app, press_key(KeyCode::F(2)));
    assert_eq!(app.input_scheme, InputScheme::Vim);
    handle_key_event(&mut app, press_char('p'));
    assert!(app.path_modal.is_some());
}

#[test]
fn test_path_modal_f3_global_hotkey_in_normal_and_editing() {
    let mut app = App::new(None, None, None);
    // Normal mode: F3 opens
    handle_key_event(&mut app, press_key(KeyCode::F(3)));
    assert!(app.path_modal.is_some());
    // F3 while open: toggles (closes)
    handle_key_event(&mut app, press_key(KeyCode::F(3)));
    assert!(app.path_modal.is_none());

    // Enter editing mode
    handle_key_event(&mut app, press_char('i'));
    assert_eq!(app.input_mode, InputMode::Editing);
    // In editing mode, F3 opens path modal
    handle_key_event(&mut app, press_key(KeyCode::F(3)));
    assert!(app.path_modal.is_some());
    // F3 toggles (closes)
    handle_key_event(&mut app, press_key(KeyCode::F(3)));
    assert!(app.path_modal.is_none());
}

#[test]
fn test_path_modal_cancel_with_esc() {
    let mut app = App::new(None, None, None);
    let original_dir = app.output_dir.clone();
    handle_key_event(&mut app, press_char('p'));
    assert!(app.path_modal.is_some());

    // Type some characters into modal
    handle_key_event(&mut app, press_char('X'));
    assert_ne!(app.path_modal.as_ref().unwrap().input, original_dir);

    // Esc cancels without saving
    handle_key_event(&mut app, press_key(KeyCode::Esc));
    assert!(app.path_modal.is_none());
    assert_eq!(app.output_dir, original_dir);
}

#[test]
fn test_path_modal_ctrl_d_and_ctrl_u() {
    let mut app = App::new(None, None, None);
    handle_key_event(&mut app, press_char('p'));
    assert!(app.path_modal.is_some());

    // Ctrl+U clears
    handle_key_event(&mut app, press_ctrl('u'));
    assert_eq!(app.path_modal.as_ref().unwrap().input, "");
    assert_eq!(app.path_modal.as_ref().unwrap().cursor_position, 0);

    // Ctrl+D resets to ./downloads
    handle_key_event(&mut app, press_ctrl('d'));
    assert_eq!(app.path_modal.as_ref().unwrap().input, "./downloads");
    assert_eq!(app.path_modal.as_ref().unwrap().cursor_position, 11);
}

#[test]
fn test_path_modal_commit_and_sanitization() {
    let mut app = App::new(None, None, None);
    let test_dir_str = "/tmp/vidown_test_save_dir".to_string();

    handle_key_event(&mut app, press_char('p'));
    handle_key_event(&mut app, press_ctrl('u'));

    // Type quoted path: "..."
    let quoted_input = format!("\"{}\"", test_dir_str);
    for c in quoted_input.chars() {
        handle_key_event(&mut app, press_char(c));
    }

    // Enter commits, and asks for the directory to be created
    let action = handle_key_event(&mut app, press_key(KeyCode::Enter));
    assert!(app.path_modal.is_none());
    assert_eq!(app.output_dir, test_dir_str);
    match action {
        AppAction::CreateDirectory { path } => assert_eq!(path, test_dir_str),
        other => panic!("expected the directory to be created, got {:?}", other),
    }
    app.report_directory_result(&test_dir_str, None);
    assert_eq!(
        app.status_message.as_deref(),
        Some("Download directory set to: /tmp/vidown_test_save_dir")
    );
}

#[test]
fn test_path_modal_commit_empty_resets_to_default() {
    let mut app = App::new(None, None, None);
    app.output_dir = "/some/custom/path".to_string();
    handle_key_event(&mut app, press_char('p'));
    handle_key_event(&mut app, press_ctrl('u')); // clear to empty
    handle_key_event(&mut app, press_key(KeyCode::Enter));
    assert_eq!(app.output_dir, "./downloads");
}

#[test]
fn test_path_modal_navigation_and_editing() {
    let mut app = App::new(None, None, None);
    handle_key_event(&mut app, press_char('p'));
    handle_key_event(&mut app, press_ctrl('u'));

    for c in "abc".chars() {
        handle_key_event(&mut app, press_char(c));
    }
    assert_eq!(app.path_modal.as_ref().unwrap().input, "abc");
    assert_eq!(app.path_modal.as_ref().unwrap().cursor_position, 3);

    // Left arrow
    handle_key_event(&mut app, press_key(KeyCode::Left));
    assert_eq!(app.path_modal.as_ref().unwrap().cursor_position, 2);

    // Backspace at pos 2 deletes 'b'
    handle_key_event(&mut app, press_key(KeyCode::Backspace));
    assert_eq!(app.path_modal.as_ref().unwrap().input, "ac");
    assert_eq!(app.path_modal.as_ref().unwrap().cursor_position, 1);

    // Home jumps to 0
    handle_key_event(&mut app, press_key(KeyCode::Home));
    assert_eq!(app.path_modal.as_ref().unwrap().cursor_position, 0);

    // Delete at 0 deletes 'a'
    handle_key_event(&mut app, press_key(KeyCode::Delete));
    assert_eq!(app.path_modal.as_ref().unwrap().input, "c");
    assert_eq!(app.path_modal.as_ref().unwrap().cursor_position, 0);

    // End jumps to end
    handle_key_event(&mut app, press_key(KeyCode::End));
    assert_eq!(app.path_modal.as_ref().unwrap().cursor_position, 1);
}

#[test]
fn test_path_modal_safe_utf8_multibyte_editing() {
    let mut app = App::new(None, None, None);
    handle_key_event(&mut app, press_char('p'));
    handle_key_event(&mut app, press_ctrl('u'));

    // Insert 3-byte Korean chars "다운" and 2-byte Cyrillic "фа" and emoji "🦀" (4 bytes)
    for c in "다운фа🦀".chars() {
        handle_key_event(&mut app, press_char(c));
    }
    let modal = app.path_modal.as_ref().unwrap();
    assert_eq!(modal.input, "다운фа🦀");
    assert_eq!(modal.cursor_position, 5); // 5 unicode chars

    // Move left twice (past emoji and 'а')
    handle_key_event(&mut app, press_key(KeyCode::Left));
    handle_key_event(&mut app, press_key(KeyCode::Left));
    assert_eq!(app.path_modal.as_ref().unwrap().cursor_position, 3);

    // Backspace deletes 'ф'
    handle_key_event(&mut app, press_key(KeyCode::Backspace));
    assert_eq!(app.path_modal.as_ref().unwrap().input, "다운а🦀");
    assert_eq!(app.path_modal.as_ref().unwrap().cursor_position, 2);

    // Delete deletes 'а'
    handle_key_event(&mut app, press_key(KeyCode::Delete));
    assert_eq!(app.path_modal.as_ref().unwrap().input, "다운🦀");
    assert_eq!(app.path_modal.as_ref().unwrap().cursor_position, 2);

    // Home and insert '★'
    handle_key_event(&mut app, press_key(KeyCode::Home));
    handle_key_event(&mut app, press_char('★'));
    assert_eq!(app.path_modal.as_ref().unwrap().input, "★다운🦀");
    assert_eq!(app.path_modal.as_ref().unwrap().cursor_position, 1);
}

#[test]
fn test_path_modal_strict_mutual_exclusion_with_detail_modal() {
    let mut app = App::new(None, None, None);
    let id = app.enqueue_download("https://example.com/test".to_string());
    app.update_error(id, "Error".to_string(), None);

    // Open detail modal with 'e'
    handle_key_event(&mut app, press_char('e'));
    assert!(app.detail_modal.is_some());
    assert!(app.path_modal.is_none());

    // Opening path modal closes detail modal
    app.open_path_modal();
    assert!(app.path_modal.is_some());
    assert!(app.detail_modal.is_none());

    // While path modal is open, 'e' does NOT open detail modal (it inserts 'e')
    handle_key_event(&mut app, press_char('e'));
    assert!(app.detail_modal.is_none());
    assert!(app.path_modal.is_some());

    // Direct open_selected_details is blocked while path_modal is active
    app.open_selected_details();
    assert!(app.detail_modal.is_none());

    // F3 closes path modal
    handle_key_event(&mut app, press_key(KeyCode::F(3)));
    assert!(app.path_modal.is_none());
    assert!(app.detail_modal.is_none());
}

#[test]
fn test_sanitize_path_function() {

    assert_eq!(sanitize_path(""), "./downloads");
    assert_eq!(sanitize_path("   "), "./downloads");
    assert_eq!(sanitize_path("\"C:\\My Videos\""), "C:\\My Videos");
    assert_eq!(sanitize_path("'C:\\My Videos'"), "C:\\My Videos");
    assert_eq!(sanitize_path("  \"/home/user/downloads\"  "), "/home/user/downloads");
    assert_eq!(sanitize_path("~/downloads"), "~/downloads"); // Literal without ~ expansion
    assert_eq!(sanitize_path("./custom"), "./custom");
}

#[test]
fn test_download_item_tracks_output_dir() {
    let mut app = App::new(None, None, None);
    app.output_dir = "/first/dir".to_string();
    let _id1 = app.enqueue_download("https://example.com/1".to_string());
    assert_eq!(app.downloads[0].output_dir, "/first/dir");

    app.output_dir = "/second/dir".to_string();
    let _id2 = app.enqueue_download("https://example.com/2".to_string());
    assert_eq!(app.downloads[1].output_dir, "/second/dir");
    // Ensure item 1 still remembers /first/dir
    assert_eq!(app.downloads[0].output_dir, "/first/dir");

    // Open detail modal for item 2
    app.selected_download = 1;
    app.open_selected_details();
    assert_eq!(app.detail_modal.as_ref().unwrap().output_dir, "/second/dir");
}

#[test]
fn test_path_modal_ctrl_d_and_ctrl_u_case_insensitive() {
    let mut app = App::new(None, None, None);
    handle_key_event(&mut app, press_char('p'));

    // Ctrl+U (uppercase) clears
    handle_key_event(&mut app, press_ctrl('U'));
    assert_eq!(app.path_modal.as_ref().unwrap().input, "");

    // Ctrl+D (uppercase) resets default
    handle_key_event(&mut app, press_ctrl('D'));
    assert_eq!(app.path_modal.as_ref().unwrap().input, "./downloads");
}

#[test]
fn test_path_modal_cursor_out_of_bounds_resilience() {
    let mut app = App::new(None, None, None);
    handle_key_event(&mut app, press_char('p'));
    if let Some(modal) = &mut app.path_modal {
        modal.cursor_position = 999;
        modal.insert_char('Z');
        assert_eq!(modal.input, "./downloadsZ");
        assert_eq!(modal.cursor_position, 12);
    }
}

#[test]
fn test_sanitize_path_nested_and_unclosed_quotes() {

    assert_eq!(sanitize_path("\"\"/nested/path\"\""), "/nested/path");
    assert_eq!(sanitize_path("''/nested/path''"), "/nested/path");
    assert_eq!(sanitize_path("\"\""), "./downloads");
    assert_eq!(sanitize_path("''"), "./downloads");
    assert_eq!(sanitize_path("\"  \""), "./downloads");
}

#[test]
fn test_progress_is_clamped_and_unknown_ids_ignored() {
    let mut app = App::new_empty();
    let id = app.enqueue_download("https://x".to_string());
    app.update_progress(id, 1, 25000);
    assert_eq!(app.downloads[0].progress, 10000);
    app.update_progress(id + 7, 1, 10);
    assert_eq!(app.downloads[0].progress, 10000);
    app.update_filename(id, "clip.mp4".to_string());
    assert_eq!(app.downloads[0].filename.as_deref(), Some("clip.mp4"));
    assert_eq!(app.download_location(id), Some(("./downloads".to_string(), Some("clip.mp4".to_string()))));
    assert_eq!(app.download_location(id + 1), None);
}

#[test]
fn test_append_log_keeps_at_most_201_lines() {
    let mut app = App::new_empty();
    let id = app.enqueue_download("https://x".to_string());
    for i in 0..300 {
        app.append_log(id, format!("line {}", i));
    }
    assert_eq!(app.downloads[0].logs.len(), 201);
    assert_eq!(app.downloads[0].logs[200], "line 299");
    assert_eq!(app.downloads[0].logs[0], "line 99");
}

#[test]
fn test_success_and_error_are_recorded_in_history() {
    let mut app = App::new_empty();
    let a = app.enqueue_download("https://a".to_string());
    let b = app.enqueue_download("https://b".to_string());
    app.update_success(a, Some("/abs/a.mp4".to_string()));
    assert_eq!(app.status_message.as_deref(), Some("Download #1 completed successfully!"));
    // The failed download never learnt its file name, so no path is recorded.
    app.update_error(b, "boom".to_string(), Some("/abs/b.mp4".to_string()));
    assert_eq!(app.status_message.as_deref(), Some("Download #2 failed: boom"));
    assert_eq!(app.history.len(), 2);
    assert_eq!(app.history[0].url, "https://b");
    assert_eq!(app.history[0].file_path, None);
    assert_eq!(app.history[0].error_message.as_deref(), Some("boom"));
    assert_eq!(app.history[1].file_path.as_deref(), Some("/abs/a.mp4"));
    assert_eq!(app.downloads[1].logs, vec!["[ERROR] boom".to_string()]);
}

#[test]
fn test_modals_are_mutually_exclusive() {
    let mut app = App::new_empty();
    app.enqueue_download("https://a".to_string());
    app.open_selected_details();
    assert!(app.detail_modal.is_some());
    app.open_help_modal();
    assert!(app.help_modal.is_some() && app.detail_modal.is_none());
    app.open_history_modal();
    assert!(app.history_modal.is_some() && app.help_modal.is_none());
    app.open_path_modal();
    assert!(app.path_modal.is_some() && app.history_modal.is_none());
    app.toggle_help_modal();
    assert!(app.help_modal.is_some() && app.path_modal.is_none());
    app.toggle_help_modal();
    assert!(app.help_modal.is_none());
    app.close_modal();
    assert!(app.detail_modal.is_none() && app.path_modal.is_none());
}

#[test]
fn test_toggle_scheme_twice_restores_it() {
    let mut app = App::new_empty();
    app.toggle_input_scheme();
    assert_eq!(app.input_scheme, InputScheme::Vim);
    assert_eq!(app.status_message.as_deref(), Some("Switched keybinding scheme to: Vim"));
    app.toggle_input_scheme();
    assert_eq!(app.input_scheme, InputScheme::StandardModal);
}

#[test]
fn test_selection_wraps_both_ways() {
    let mut app = App::new_empty();
    for i in 0..3 {
        app.enqueue_download(format!("https://{}", i));
    }
    assert_eq!(app.selected_download, 2);
    app.next_download();
    assert_eq!(app.selected_download, 0);
    app.previous_download();
    assert_eq!(app.selected_download, 2);
}

#[test]
fn test_submit_sanitizes_and_ignores_blank_input() {
    let mut app = App::new_empty();
    app.input_buffer = "  <https://site.com/v>  ".to_string();
    assert_eq!(app.submit_input(), Some((1, "https://site.com/v".to_string())));
    assert!(app.input_buffer.is_empty());
    app.input_buffer = "   ".to_string();
    assert_eq!(app.submit_input(), None);
    assert_eq!(app.input_buffer, "   ");
}

#[test]
fn test_app_new_from_config_history_and_tools() {
    let config = "output_dir = \"'/media/vids'\"\nhistory_limit = 60\n";
    let mut saved = Vec::new();
    for i in 0..70 {
        saved.push(HistoryEntry::new_completed(i, format!("https://{}", i), None, None));
    }
    let tools = vec![
        (RequiredTool::YtDlp, ToolLocation::Missing),
        (RequiredTool::Ffmpeg, ToolLocation::SystemPath("/usr/bin/ffmpeg".to_string())),
    ];
    let app = App::new(Some(config), Some(saved), Some(tools));
    assert_eq!(app.output_dir, "/media/vids");
    assert_eq!(app.history_limit, 60);
    assert!(app.persist_history);
    assert_eq!(app.history.len(), 60);
    assert_eq!(app.current_screen, CurrentScreen::Setup);
    let setup = app.setup_state.as_ref().unwrap();
    assert_eq!(setup.tools[1].status, ToolSetupStatus::Found("Found in PATH (/usr/bin/ffmpeg)".to_string()));

    let fine = App::new(None, None, Some(vec![(RequiredTool::Node, ToolLocation::LocalBin("/b/node".to_string()))]));
    assert_eq!(fine.current_screen, CurrentScreen::Main);
    assert!(fine.setup_state.is_none());
    assert_eq!(fine.output_dir, "./downloads");
    assert_eq!(fine.history_limit, 50);
    assert!(!fine.persist_history);
}

#[test]
fn test_display_path_strips_verbatim_prefix_on_windows() {
    assert_eq!(display_path("\\\\?\\C:\\Videos\\a.mp4".to_string(), true), "C:\\Videos\\a.mp4");
    assert_eq!(display_path("\\\\?\\C:\\x".to_string(), false), "\\\\?\\C:\\x");
    assert_eq!(display_path("/home/u/a.mp4".to_string(), true), "/home/u/a.mp4");
}
