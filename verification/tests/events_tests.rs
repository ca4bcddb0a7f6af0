use video_downloader::history::HistoryEntry;
use video_downloader::app::{App, InputMode, InputScheme};
use video_downloader::events::{
    handle_key_event, key_command, AppAction, KeyCode, KeyCommand, KeyEvent, KeyEventKind,
    KeyModifiers,
};

fn press_key(code: KeyCode) -> KeyEvent {
    KeyEvent::press(code)
}

fn press_char(c: char) -> KeyEvent {
    press_key(KeyCode::Char(c))
}

#[test]
fn test_only_presses_count_and_ctrl_c_quits() {
    let mut app = App::new_empty();
    let release = KeyEvent {
        code: KeyCode::Char('i'),
        modifiers: KeyModifiers::none(),
        kind: KeyEventKind::Release,
    };
    handle_key_event(&mut app, release);
    assert_eq!(app.input_mode, InputMode::Normal);

    app.open_help_modal();
    let ctrl_c = KeyEvent {
        code: KeyCode::Char('c'),
        modifiers: KeyModifiers { shift: false, control: true, alt: false },
        kind: KeyEventKind::Press,
    };
    handle_key_event(&mut app, ctrl_c);
    assert!(app.should_quit);
}

#[test]
fn test_key_commands_by_state() {
    let mut app = App::new_empty();
    assert_eq!(key_command(&app, press_char('q')), KeyCommand::Quit);
    assert_eq!(key_command(&app, press_char('i')), KeyCommand::StartEditingAtEnd);
    assert_eq!(key_command(&app, press_key(KeyCode::F(4))), KeyCommand::ToggleHistory);
    app.input_scheme = InputScheme::Vim;
    assert_eq!(key_command(&app, press_char('x')), KeyCommand::DeleteForward);
    assert_eq!(key_command(&app, press_char('a')), KeyCommand::AppendAfterCursor);
    app.input_mode = InputMode::Editing;
    assert_eq!(key_command(&app, press_char('q')), KeyCommand::InsertChar('q'));
    app.open_history_modal();
    assert_eq!(key_command(&app, press_char('d')), KeyCommand::DeleteHistory);
    assert_eq!(key_command(&app, press_key(KeyCode::Enter)), KeyCommand::OpenHistoryFile);
}

#[test]
fn test_vim_append_and_unicode_cursor() {
    let mut app = App::new_empty();
    handle_key_event(&mut app, press_key(KeyCode::F(2)));
    app.input_buffer = "🦀ab".to_string();
    app.cursor_position = 0;
    handle_key_event(&mut app, press_char('a'));
    assert_eq!(app.input_mode, InputMode::Editing);
    assert_eq!(app.cursor_position, 1);
    handle_key_event(&mut app, press_key(KeyCode::End));
    assert_eq!(app.cursor_position, 3);
    handle_key_event(&mut app, press_key(KeyCode::Right));
    assert_eq!(app.cursor_position, 3);
    handle_key_event(&mut app, press_key(KeyCode::Esc));
    handle_key_event(&mut app, press_char('0'));
    handle_key_event(&mut app, press_char('x'));
    assert_eq!(app.input_buffer, "ab");
}

#[test]
fn test_history_keys_navigate_and_retry() {
    let mut app = App::new_empty();
    for i in 1..=3 {
        app.add_history_entry(HistoryEntry::new_completed(i, format!("https://{}", i), None, None));
    }
    handle_key_event(&mut app, press_key(KeyCode::F(4)));
    assert!(app.history_modal.is_some());
    handle_key_event(&mut app, press_key(KeyCode::Up));
    assert_eq!(app.history_modal.as_ref().unwrap().selected, 2);
    handle_key_event(&mut app, press_key(KeyCode::Down));
    assert_eq!(app.history_modal.as_ref().unwrap().selected, 0);
    handle_key_event(&mut app, press_key(KeyCode::End));
    assert_eq!(app.history_modal.as_ref().unwrap().selected, 2);
    handle_key_event(&mut app, press_key(KeyCode::Home));
    assert_eq!(app.history_modal.as_ref().unwrap().selected, 0);
    match handle_key_event(&mut app, press_char('r')) {
        AppAction::StartDownload { id, url } => {
            assert_eq!(id, 1);
            assert_eq!(url, "https://3");
        }
        other => panic!("expected a download, got {:?}", other),
    }
    assert!(app.history_modal.is_none());
}
