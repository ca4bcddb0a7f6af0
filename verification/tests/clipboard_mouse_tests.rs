use video_downloader::app::{App, CurrentScreen, InputMode, PathModal, SetupPhase, SetupState};
use video_downloader::clipboard::{
    clipboard_candidate, clipboard_fallbacks, is_wsl, sanitize_clipboard_text, ClipboardSource,
};
use video_downloader::config::{get_default_download_dir, get_safe_fallback_dir, Environment};
use video_downloader::events::{
    handle_key_event, handle_mouse_event, handle_paste_event, AppAction, KeyCode, KeyEvent,
    KeyEventKind, KeyModifiers, MouseButton, MouseEvent, MouseEventKind,
};

fn press_ctrl(c: char) -> KeyEvent {
    KeyEvent {
        code: KeyCode::Char(c),
        modifiers: KeyModifiers { shift: false, control: true, alt: false },
        kind: KeyEventKind::Press,
    }
}

fn press_shift_insert() -> KeyEvent {
    KeyEvent {
        code: KeyCode::Insert,
        modifiers: KeyModifiers { shift: true, control: false, alt: false },
        kind: KeyEventKind::Press,
    }
}

/// Rows inside the downloads list's border on an 80x24 terminal.
const LIST_ROWS: u16 = 13;

fn make_mouse_event(kind: MouseEventKind, column: u16, row: u16) -> MouseEvent {
    MouseEvent { kind, column, row }
}

fn test_env() -> Environment {
    Environment {
        windows: false,
        vidown_config_dir: None,
        vidown_bin_dir: None,
        xdg_config_home: None,
        xdg_data_home: None,
        home: Some("/home/user".to_string()),
        appdata: None,
        local_appdata: None,
        user_profile: None,
        home_drive: None,
        home_path: None,
        temp_dir: "/tmp".to_string(),
    }
}

#[test]
fn test_sanitize_clipboard_text_quotes_and_whitespace() {
    assert_eq!(
        sanitize_clipboard_text("  https://www.youtube.com/watch?v=12345  "),
        "https://www.youtube.com/watch?v=12345"
    );
    assert_eq!(
        sanitize_clipboard_text("\"https://www.youtube.com/watch?v=12345\""),
        "https://www.youtube.com/watch?v=12345"
    );
    assert_eq!(
        sanitize_clipboard_text("'https://www.youtube.com/watch?v=12345'"),
        "https://www.youtube.com/watch?v=12345"
    );
    assert_eq!(
        sanitize_clipboard_text("  \"  'https://site.com/video.mp4'  \"  "),
        "https://site.com/video.mp4"
    );
}

#[test]
fn test_sanitize_clipboard_text_multiline() {
    let multi = "   \n\r  https://site.com/first_video \n https://site.com/second_video \r\n";
    assert_eq!(
        sanitize_clipboard_text(multi),
        "https://site.com/first_video"
    );
}

#[test]
fn test_sanitize_clipboard_text_empty() {
    assert_eq!(sanitize_clipboard_text(""), "");
    assert_eq!(sanitize_clipboard_text("   \n\r\t  "), "");
    assert_eq!(sanitize_clipboard_text("\"\""), "");
    assert_eq!(sanitize_clipboard_text("''"), "");
}

#[test]
fn test_app_paste_text_to_input_from_normal_mode() {
    let mut app = App::new(None, None, None);
    assert_eq!(app.input_mode, InputMode::Normal);
    assert_eq!(app.input_buffer, "");
    assert_eq!(app.cursor_position, 0);

    app.paste_text_to_input("https://youtu.be/dQw4w9WgXcQ");
    assert_eq!(app.input_mode, InputMode::Editing);
    assert_eq!(app.input_buffer, "https://youtu.be/dQw4w9WgXcQ");
    assert_eq!(app.cursor_position, 28);
    assert!(app.status_message.as_ref().unwrap().contains("Pasted"));
}

#[test]
fn test_app_paste_text_to_input_middle_insertion_and_multibyte() {
    let mut app = App::new(None, None, None);
    app.input_mode = InputMode::Editing;
    app.input_buffer = "hello world".to_string();
    app.cursor_position = 5; // right after "hello"

    app.paste_text_to_input("🦀 beautiful");
    assert_eq!(app.input_buffer, "hello🦀 beautiful world");
    // "hello" (5) + "🦀 beautiful" (11 chars) = 16
    assert_eq!(app.cursor_position, 16);
}

#[test]
fn test_handle_paste_event_in_main_screen() {
    let mut app = App::new(None, None, None);
    assert_eq!(app.current_screen, CurrentScreen::Main);

    handle_paste_event(&mut app, "https://vimeo.com/987654");
    assert_eq!(app.input_mode, InputMode::Editing);
    assert_eq!(app.input_buffer, "https://vimeo.com/987654");
}

#[test]
fn test_handle_paste_event_in_path_modal() {
    let mut app = App::new(None, None, None);
    app.path_modal = Some(PathModal::new("/current/path"));
    assert_eq!(app.path_modal.as_ref().unwrap().input, "/current/path");

    handle_paste_event(&mut app, "/extra/subfolder");
    assert_eq!(
        app.path_modal.as_ref().unwrap().input,
        "/current/path/extra/subfolder"
    );
    // URL input buffer should not have changed
    assert_eq!(app.input_buffer, "");
}

#[test]
fn test_handle_paste_event_modal_exclusion() {
    let mut app = App::new(None, None, None);
    app.open_help_modal();
    assert!(app.help_modal.is_some());

    handle_paste_event(&mut app, "https://ignored.com");
    assert_eq!(app.input_buffer, "");
}

#[test]
fn test_ctrl_v_and_shift_insert_key_events() {
    let mut app = App::new(None, None, None);

    // Verify Ctrl+V does not insert literal 'v' into buffer
    app.input_mode = InputMode::Editing;
    app.input_buffer = "http://".to_string();
    app.cursor_position = 7;

    // Press Ctrl+V: the clipboard is to be read, and no literal 'v' is typed
    let action = handle_key_event(&mut app, press_ctrl('v'));
    assert!(matches!(action, AppAction::PasteClipboard));
    assert_ne!(app.input_buffer, "http://v");

    // Press Shift+Insert
    let action = handle_key_event(&mut app, press_shift_insert());
    assert!(matches!(action, AppAction::PasteClipboard));
    assert!(!app.input_buffer.ends_with('v'));
}

#[test]
fn test_mouse_left_click_focus_url_input() {
    let mut app = App::new(None, None, None);
    app.input_buffer = "https://example.com/video".to_string();
    app.cursor_position = 0;
    app.input_mode = InputMode::Normal;

    // Click on row 4, column 10 (inside URL input area rows 3..=5)
    let mouse = make_mouse_event(MouseEventKind::Down(MouseButton::Left), 10, 4);
    handle_mouse_event(&mut app, mouse, LIST_ROWS);

    assert_eq!(app.input_mode, InputMode::Editing);
    // Cursor position should be set to col - 1 = 9
    assert_eq!(app.cursor_position, 9);
}

#[test]
fn test_mouse_left_click_select_downloads_item() {
    let mut app = App::new(None, None, None);
    app.enqueue_download("https://site.com/1".to_string());
    app.enqueue_download("https://site.com/2".to_string());
    app.enqueue_download("https://site.com/3".to_string());
    assert_eq!(app.selected_download, 2);

    // Row 7 is item 0 (header=3, input=3, border=1 -> row 7 is list_row 0 -> item 0)
    let mouse = make_mouse_event(MouseEventKind::Down(MouseButton::Left), 15, 7);
    handle_mouse_event(&mut app, mouse, LIST_ROWS);
    assert_eq!(app.selected_download, 0);

    // Row 10 is item 1 (list_row 3 -> 3/3 = 1)
    let mouse = make_mouse_event(MouseEventKind::Down(MouseButton::Left), 15, 10);
    handle_mouse_event(&mut app, mouse, LIST_ROWS);
    assert_eq!(app.selected_download, 1);
}

#[test]
fn test_mouse_left_click_double_click_opens_details() {
    let mut app = App::new(None, None, None);
    let id = app.enqueue_download("https://site.com/1".to_string());
    app.append_log(id, "Error log line".to_string());
    app.selected_download = 0;

    // Re-clicking on the already selected item opens details modal
    let mouse = make_mouse_event(MouseEventKind::Down(MouseButton::Left), 15, 7);
    handle_mouse_event(&mut app, mouse, LIST_ROWS);
    assert!(app.detail_modal.is_some());
    assert_eq!(
        app.detail_modal.as_ref().unwrap().title,
        "Download #1: Details & Logs"
    );
}

#[test]
fn test_mouse_scroll_wheel_navigation() {
    let mut app = App::new(None, None, None);
    app.enqueue_download("https://site.com/1".to_string());
    app.enqueue_download("https://site.com/2".to_string());
    app.selected_download = 0;

    // Scroll down moves to next download
    let scroll_down = make_mouse_event(MouseEventKind::ScrollDown, 10, 10);
    handle_mouse_event(&mut app, scroll_down, LIST_ROWS);
    assert_eq!(app.selected_download, 1);

    // Scroll up moves to previous download
    let scroll_up = make_mouse_event(MouseEventKind::ScrollUp, 10, 10);
    handle_mouse_event(&mut app, scroll_up, LIST_ROWS);
    assert_eq!(app.selected_download, 0);
}

#[test]
fn test_mouse_scroll_wheel_in_help_modal() {
    let mut app = App::new(None, None, None);
    app.open_help_modal();
    assert_eq!(app.help_modal.as_ref().unwrap().scroll_offset, 0);

    let scroll_down = make_mouse_event(MouseEventKind::ScrollDown, 10, 10);
    handle_mouse_event(&mut app, scroll_down, LIST_ROWS);
    assert_eq!(app.help_modal.as_ref().unwrap().scroll_offset, 1);

    let scroll_up = make_mouse_event(MouseEventKind::ScrollUp, 10, 10);
    handle_mouse_event(&mut app, scroll_up, LIST_ROWS);
    assert_eq!(app.help_modal.as_ref().unwrap().scroll_offset, 0);
}

#[test]
fn test_get_default_download_dir_in_tests() {
    let default_dir = get_default_download_dir(&test_env(), true);
    assert_eq!(default_dir, "./downloads");
}

#[test]
fn test_get_safe_fallback_dir_is_valid() {
    let fallback = get_safe_fallback_dir(&test_env());
    assert!(!fallback.is_empty());
}

#[test]
fn test_setup_screen_mouse_click_starts_app_when_complete() {
    let state = SetupState {
        phase: SetupPhase::Complete,
        tools: Vec::new(),
        status_message: "Ready".to_string(),
        help_scroll: 0,
    };
    let mut app = App::new_with_setup(state);
    assert_eq!(app.current_screen, CurrentScreen::Setup);

    // Clicking in the bottom footer row triggers launch
    let mouse = make_mouse_event(MouseEventKind::Down(MouseButton::Left), 20, 22);
    handle_mouse_event(&mut app, mouse, LIST_ROWS);
    assert_eq!(app.current_screen, CurrentScreen::Main);
}

#[test]
fn test_default_download_dir_outside_tests() {
    assert_eq!(get_default_download_dir(&test_env(), false), "/home/user/Downloads");
    let mut no_home = test_env();
    no_home.home = None;
    assert_eq!(get_default_download_dir(&no_home, false), "./downloads");
    let mut win = test_env();
    win.windows = true;
    win.local_appdata = Some("C:\\Users\\Hp\\AppData\\Local".to_string());
    assert_eq!(get_safe_fallback_dir(&win), "C:\\Users\\Hp\\AppData\\Local\\Vidown\\downloads");
}

#[test]
fn test_sanitize_clipboard_text_delimiters() {
    assert_eq!(sanitize_clipboard_text("<https://a.com/v>"), "https://a.com/v");
    assert_eq!(sanitize_clipboard_text("`https://a.com/v`"), "https://a.com/v");
    assert_eq!(sanitize_clipboard_text("\u{201c}https://a.com/v\u{201d}"), "https://a.com/v");
    assert_eq!(sanitize_clipboard_text("\u{2018}https://a.com/v\u{2019}"), "https://a.com/v");
    assert_eq!(sanitize_clipboard_text("( [https://a.com/v] )"), "https://a.com/v");
    assert_eq!(sanitize_clipboard_text("\"unclosed"), "\"unclosed");
}

#[test]
fn test_clipboard_candidate_only_offers_text() {
    assert_eq!(clipboard_candidate("  'https://x.com'\n"), Some("https://x.com".to_string()));
    assert_eq!(clipboard_candidate("  \n\t "), None);
    assert_eq!(clipboard_candidate("\"\""), None);
}

#[test]
fn test_right_click_asks_for_clipboard() {
    let mut app = App::new(None, None, None);
    let action = handle_mouse_event(&mut app, make_mouse_event(MouseEventKind::Down(MouseButton::Right), 5, 5), LIST_ROWS);
    assert!(matches!(action, AppAction::PasteClipboard));
    assert_eq!(app.input_buffer, "");
}

#[test]
fn test_click_on_empty_list_space_is_ignored() {
    let mut app = App::new(None, None, None);
    app.enqueue_download("https://site.com/1".to_string());
    app.input_mode = InputMode::Editing;
    let mouse = make_mouse_event(MouseEventKind::Down(MouseButton::Left), 15, 16);
    handle_mouse_event(&mut app, mouse, LIST_ROWS);
    assert_eq!(app.selected_download, 0);
    assert!(app.detail_modal.is_none());
    assert_eq!(app.input_mode, InputMode::Editing);
}

#[test]
fn test_scroll_wheel_does_not_move_downloads_under_path_modal() {
    let mut app = App::new(None, None, None);
    app.enqueue_download("https://site.com/1".to_string());
    app.enqueue_download("https://site.com/2".to_string());
    app.selected_download = 0;
    app.open_path_modal();
    handle_mouse_event(&mut app, make_mouse_event(MouseEventKind::ScrollDown, 10, 10), LIST_ROWS);
    assert_eq!(app.selected_download, 0);
}

#[test]
fn test_paste_ignored_on_setup_screen_and_empty_text() {
    let state = SetupState { phase: SetupPhase::Checking, tools: Vec::new(), status_message: String::new(), help_scroll: 0 };
    let mut app = App::new_with_setup(state);
    handle_paste_event(&mut app, "https://x.com");
    assert_eq!(app.input_buffer, "");

    let mut main = App::new(None, None, None);
    handle_paste_event(&mut main, "   ");
    assert_eq!(main.input_mode, InputMode::Normal);
    assert_eq!(main.input_buffer, "");
}

#[test]
fn test_right_click_ignored_under_viewing_modals() {
    let mut app = App::new(None, None, None);
    app.open_help_modal();
    let action = handle_mouse_event(&mut app, make_mouse_event(MouseEventKind::Down(MouseButton::Right), 5, 5), LIST_ROWS);
    assert!(matches!(action, AppAction::Nothing));
    app.open_path_modal();
    let action = handle_mouse_event(&mut app, make_mouse_event(MouseEventKind::Down(MouseButton::Right), 5, 5), LIST_ROWS);
    assert!(matches!(action, AppAction::PasteClipboard));
}

#[test]
fn test_clipboard_fallbacks_and_wsl_detection() {
    assert_eq!(clipboard_fallbacks(true, false), vec![ClipboardSource::PowerShell]);
    assert_eq!(
        clipboard_fallbacks(false, true),
        vec![ClipboardSource::WslPowerShell, ClipboardSource::WlPaste, ClipboardSource::Xclip, ClipboardSource::Xsel]
    );
    assert_eq!(
        clipboard_fallbacks(false, false),
        vec![ClipboardSource::WlPaste, ClipboardSource::Xclip, ClipboardSource::Xsel]
    );
    assert!(is_wsl(true, false, None));
    assert!(is_wsl(false, false, Some("Linux version 5.15.90.1-Microsoft-standard-WSL2")));
    assert!(!is_wsl(false, false, Some("Linux version 6.1.0-generic")));
    assert!(!is_wsl(false, false, None));
}

#[test]
fn test_click_on_scrolled_list_maps_to_visible_item() {
    let mut app = App::new(None, None, None);
    for i in 0..10 {
        app.enqueue_download(format!("https://site.com/{}", i));
    }
    // 13 rows show four downloads; with download 9 selected, 6..=9 are in view.
    assert_eq!(app.selected_download, 9);
    handle_mouse_event(&mut app, make_mouse_event(MouseEventKind::Down(MouseButton::Left), 15, 7), LIST_ROWS);
    assert_eq!(app.selected_download, 6);
    // Download 6 is now in view at the last slot of the window 3..=6: row 10 is download 4.
    handle_mouse_event(&mut app, make_mouse_event(MouseEventKind::Down(MouseButton::Left), 15, 10), LIST_ROWS);
    assert_eq!(app.selected_download, 4);
    assert_eq!(app.input_mode, InputMode::Normal);
}

#[test]
fn test_click_on_border_or_footer_is_ignored() {
    let mut app = App::new(None, None, None);
    for i in 0..10 {
        app.enqueue_download(format!("https://site.com/{}", i));
    }
    app.selected_download = 0;
    app.input_mode = InputMode::Editing;
    // Row 6 is the list's top border; rows 20 and on are its bottom border and the footer.
    for row in [6u16, 20, 21, 23] {
        handle_mouse_event(&mut app, make_mouse_event(MouseEventKind::Down(MouseButton::Left), 15, row), LIST_ROWS);
        assert_eq!(app.selected_download, 0);
        assert_eq!(app.input_mode, InputMode::Editing);
        assert!(app.detail_modal.is_none());
    }
    // 13 rows hold four slots (rows 7..=18); row 19 is empty space inside the list.
    handle_mouse_event(&mut app, make_mouse_event(MouseEventKind::Down(MouseButton::Left), 15, 19), LIST_ROWS);
    assert_eq!(app.selected_download, 0);
    handle_mouse_event(&mut app, make_mouse_event(MouseEventKind::Down(MouseButton::Left), 15, 18), LIST_ROWS);
    assert_eq!(app.selected_download, 3);
}

#[test]
fn test_sanitized_text_is_a_trimmed_piece_of_the_input() {
    let input = "\n  \t\n  \"https://a.com/v?x=1\"  \n second line";
    let out = sanitize_clipboard_text(input);
    assert_eq!(out, "https://a.com/v?x=1");
    assert!(input.contains(out.as_str()));
    assert_eq!(out.trim(), out);
    assert!(!out.contains('\n'));
    assert_eq!(sanitize_clipboard_text(&out), out);
}
