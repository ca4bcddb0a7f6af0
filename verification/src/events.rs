//! Turning key presses, pastes and mouse actions into transitions of the
//! application state, and the outside work that they ask for.
use vstd::prelude::*;
use crate::app::{
    cancel_path_modal_effect, clamped_cursor, close_help_modal_effect, close_history_modal_effect,
    close_modal_effect, commit_path_modal_effect, delete_selected_history_entry_effect,
    finish_setup_effect, modal_scroll_down_effect, modal_scroll_up_effect, next_download_effect,
    open_help_modal_effect, open_history_modal_effect, open_path_modal_effect,
    open_selected_details_effect, paste_text_to_input_effect, path_backspace_effect,
    path_clear_effect, path_delete_effect, path_insert_char_effect, path_insert_str_effect,
    path_move_end_effect, path_move_home_effect, path_move_left_effect, path_move_right_effect,
    path_reset_default_effect, previous_download_effect, retry_selected_history_effect,
    retry_setup_effect, scrolled_setup, selected_history_file_path_effect,
    setup_scroll_down_effect, setup_scroll_up_effect, submit_input_effect,
    toggle_help_modal_effect, toggle_history_modal_effect, toggle_input_scheme_effect,
    toggle_path_modal_effect, wrap_next, wrap_previous, App, CurrentScreen, HelpModal,
    HistoryModal, InputMode, InputScheme, PathModal, SetupPhase, SetupState,
};
use crate::clipboard::{
    lemma_sanitize_clipboard_text_shorter, sanitize_clipboard_text, spec_sanitize_clipboard_text,
};
use crate::text::{char_count, insert_str_at, remove_char_at, string_of_char};
use crate::ui::{list_window, spec_list_window};

verus! {

/// A key of the keyboard.
#[derive(Debug, Clone, Copy, PartialEq, Eq, Structural)]
pub enum KeyCode {
    Backspace,
    Enter,
    Left,
    Right,
    Up,
    Down,
    Home,
    End,
    PageUp,
    PageDown,
    Tab,
    BackTab,
    Delete,
    Insert,
    F(u8),
    Char(char),
    Null,
    Esc,
    /// Any key that the application gives no meaning.
    Other,
}

/// The modifier keys held with a key.
#[derive(Debug, Clone, Copy, PartialEq, Eq, Structural)]
pub struct KeyModifiers {
    pub shift: bool,
    pub control: bool,
    pub alt: bool,
}

/// Whether a key went down, repeated or went up.
#[derive(Debug, Clone, Copy, PartialEq, Eq, Structural)]
pub enum KeyEventKind {
    Press,
    Repeat,
    Release,
}

/// A key event from the terminal.
#[derive(Debug, Clone, Copy, PartialEq, Eq, Structural)]
pub struct KeyEvent {
    pub code: KeyCode,
    pub modifiers: KeyModifiers,
    pub kind: KeyEventKind,
}

impl KeyModifiers {
    pub fn none() -> (m: Self)
        ensures
            !m.shift && !m.control && !m.alt,
    {
        KeyModifiers { shift: false, control: false, alt: false }
    }
}

impl KeyEvent {
    /// A press of `code` with no modifier held.
    pub fn press(code: KeyCode) -> (k: Self)
        ensures
            k.code == code,
            !k.modifiers.shift && !k.modifiers.control && !k.modifiers.alt,
            k.kind == KeyEventKind::Press,
    {
        KeyEvent { code, modifiers: KeyModifiers::none(), kind: KeyEventKind::Press }
    }
}

/// Work outside the application state that handling an event asks for.
#[derive(Debug)]
pub enum AppAction {
    /// Nothing more to do.
    Nothing,
    /// Start the download task `id` for `url`.
    StartDownload { id: usize, url: String },
    /// Read the system clipboard and hand its text to `handle_paste_event`.
    PasteClipboard,
    /// Show `path` in the system file explorer, then report the outcome with
    /// `App::report_file_manager_result`.
    OpenInFileManager { path: String },
    /// Create the directory `path` (the new output directory) and save it in the
    /// configuration, then report the outcome with `App::report_directory_result`.
    CreateDirectory { path: String },
}

/// What a key press asks of the application.
#[derive(Debug, Clone, Copy, PartialEq, Eq, Structural)]
pub enum KeyCommand {
    Ignore,
    Quit,
    CloseHelp,
    HelpLineDown,
    HelpLineUp,
    HelpPageDown,
    HelpPageUp,
    HelpTop,
    OpenHelp,
    FinishSetup,
    RetrySetup,
    SetupLineDown,
    SetupLineUp,
    SetupPageDown,
    SetupPageUp,
    SetupTop,
    ToggleHelp,
    ToggleHistory,
    TogglePath,
    ToggleScheme,
    PasteClipboard,
    CloseHistory,
    HistoryNext,
    HistoryPrevious,
    HistoryFirst,
    HistoryLast,
    RetryHistory,
    OpenHistoryFile,
    DeleteHistory,
    PathResetDefault,
    PathClear,
    CommitPath,
    CancelPath,
    PathLeft,
    PathRight,
    PathHome,
    PathEnd,
    PathBackspace,
    PathDelete,
    PathInsert(char),
    CloseModal,
    DetailUp,
    DetailDown,
    Submit,
    LeaveEditing,
    InsertChar(char),
    DeleteBack,
    DeleteForward,
    CursorLeft,
    CursorRight,
    CursorHome,
    CursorEnd,
    StartEditing,
    StartEditingAtEnd,
    AppendAfterCursor,
    NextDownload,
    PreviousDownload,
    OpenDetails,
    OpenPath,
    OpenHistory,
}

/// Lines the help guide is taken to have when scrolling it.
pub const HELP_LINES: usize = 100;

/// Lines that a page key scrolls.
pub const PAGE_LINES: usize = 5;

pub open spec fn is_char(code: KeyCode, c: char) -> bool {
    code == KeyCode::Char(c)
}

/// Either case of a letter key.
pub open spec fn is_letter(code: KeyCode, lower: char, upper: char) -> bool {
    code == KeyCode::Char(lower) || code == KeyCode::Char(upper)
}

/// The keys of the help guide.
pub open spec fn help_key(code: KeyCode) -> KeyCommand {
    if code == KeyCode::Esc || code == KeyCode::Enter || is_letter(code, 'q', 'Q') || is_char(
        code,
        '?',
    ) || code == KeyCode::F(1) {
        KeyCommand::CloseHelp
    } else if code == KeyCode::Down || is_letter(code, 'j', 'J') {
        KeyCommand::HelpLineDown
    } else if code == KeyCode::Up || is_letter(code, 'k', 'K') {
        KeyCommand::HelpLineUp
    } else if code == KeyCode::PageDown {
        KeyCommand::HelpPageDown
    } else if code == KeyCode::PageUp {
        KeyCommand::HelpPageUp
    } else if code == KeyCode::Home {
        KeyCommand::HelpTop
    } else {
        KeyCommand::Ignore
    }
}

/// The keys of the setup screen, given its phase.
pub open spec fn setup_key(phase: Option<SetupPhase>, code: KeyCode) -> KeyCommand {
    if is_char(code, '?') || code == KeyCode::F(1) {
        KeyCommand::OpenHelp
    } else if phase == Some(SetupPhase::Complete) && code == KeyCode::Enter {
        KeyCommand::FinishSetup
    } else if phase matches Some(SetupPhase::Error(_)) && is_letter(code, 'r', 'R') {
        KeyCommand::RetrySetup
    } else if phase matches Some(SetupPhase::Error(_)) && is_letter(code, 'c', 'C') {
        KeyCommand::FinishSetup
    } else if is_letter(code, 'q', 'Q') {
        KeyCommand::Quit
    } else if code == KeyCode::Down || is_letter(code, 'j', 'J') {
        KeyCommand::SetupLineDown
    } else if code == KeyCode::Up || is_letter(code, 'k', 'K') {
        KeyCommand::SetupLineUp
    } else if code == KeyCode::PageDown {
        KeyCommand::SetupPageDown
    } else if code == KeyCode::PageUp {
        KeyCommand::SetupPageUp
    } else if code == KeyCode::Home {
        KeyCommand::SetupTop
    } else {
        KeyCommand::Ignore
    }
}

/// The keys of the history inspector.
pub open spec fn history_key(code: KeyCode) -> KeyCommand {
    if code == KeyCode::Esc || is_letter(code, 'q', 'Q') || is_letter(code, 'g', 'G') || code
        == KeyCode::F(4) {
        KeyCommand::CloseHistory
    } else if code == KeyCode::Down || is_letter(code, 'j', 'J') {
        KeyCommand::HistoryNext
    } else if code == KeyCode::Up || is_letter(code, 'k', 'K') {
        KeyCommand::HistoryPrevious
    } else if code == KeyCode::Home {
        KeyCommand::HistoryFirst
    } else if code == KeyCode::End {
        KeyCommand::HistoryLast
    } else if is_letter(code, 'r', 'R') {
        KeyCommand::RetryHistory
    } else if is_letter(code, 'o', 'O') || code == KeyCode::Enter {
        KeyCommand::OpenHistoryFile
    } else if is_letter(code, 'd', 'D') {
        KeyCommand::DeleteHistory
    } else {
        KeyCommand::Ignore
    }
}

/// The keys of the download directory editor.
pub open spec fn path_key(key: KeyEvent) -> KeyCommand {
    let code = key.code;
    if key.modifiers.control {
        if is_letter(code, 'v', 'V') {
            KeyCommand::PasteClipboard
        } else if is_letter(code, 'd', 'D') {
            KeyCommand::PathResetDefault
        } else if is_letter(code, 'u', 'U') {
            KeyCommand::PathClear
        } else {
            KeyCommand::Ignore
        }
    } else if key.modifiers.shift && code == KeyCode::Insert {
        KeyCommand::PasteClipboard
    } else {
        match code {
            KeyCode::Enter => KeyCommand::CommitPath,
            KeyCode::Esc => KeyCommand::CancelPath,
            KeyCode::Left => KeyCommand::PathLeft,
            KeyCode::Right => KeyCommand::PathRight,
            KeyCode::Home => KeyCommand::PathHome,
            KeyCode::End => KeyCommand::PathEnd,
            KeyCode::Backspace => KeyCommand::PathBackspace,
            KeyCode::Delete => KeyCommand::PathDelete,
            KeyCode::Char(c) => KeyCommand::PathInsert(c),
            _ => KeyCommand::Ignore,
        }
    }
}

/// The keys of the detail and log viewer.
pub open spec fn detail_key(code: KeyCode) -> KeyCommand {
    if code == KeyCode::Esc || code == KeyCode::Enter || is_char(code, 'q') {
        KeyCommand::CloseModal
    } else if code == KeyCode::Up || is_char(code, 'k') {
        KeyCommand::DetailUp
    } else if code == KeyCode::Down || is_char(code, 'j') {
        KeyCommand::DetailDown
    } else {
        KeyCommand::Ignore
    }
}

/// The keys of the URL input in Editing mode.
pub open spec fn editing_key(key: KeyEvent) -> KeyCommand {
    match key.code {
        KeyCode::Enter => KeyCommand::Submit,
        KeyCode::Esc => KeyCommand::LeaveEditing,
        KeyCode::Char(c) => if key.modifiers.control {
            KeyCommand::Ignore
        } else {
            KeyCommand::InsertChar(c)
        },
        KeyCode::Backspace => KeyCommand::DeleteBack,
        KeyCode::Delete => KeyCommand::DeleteForward,
        KeyCode::Left => KeyCommand::CursorLeft,
        KeyCode::Right => KeyCommand::CursorRight,
        KeyCode::Home => KeyCommand::CursorHome,
        KeyCode::End => KeyCommand::CursorEnd,
        _ => KeyCommand::Ignore,
    }
}

/// The keys of Normal mode that both schemes share.
pub open spec fn common_normal_key(code: KeyCode) -> KeyCommand {
    if is_char(code, 'q') {
        KeyCommand::Quit
    } else if is_char(code, 'j') || code == KeyCode::Down {
        KeyCommand::NextDownload
    } else if is_char(code, 'k') || code == KeyCode::Up {
        KeyCommand::PreviousDownload
    } else if is_char(code, 'e') {
        KeyCommand::OpenDetails
    } else if is_char(code, 'p') {
        KeyCommand::OpenPath
    } else if is_letter(code, 'g', 'G') {
        KeyCommand::OpenHistory
    } else if is_char(code, '?') {
        KeyCommand::OpenHelp
    } else {
        KeyCommand::Ignore
    }
}

/// The keys of Normal mode.
pub open spec fn normal_key(scheme: InputScheme, code: KeyCode) -> KeyCommand {
    match scheme {
        InputScheme::StandardModal => if is_char(code, 'i') || code == KeyCode::Enter {
            KeyCommand::StartEditingAtEnd
        } else {
            common_normal_key(code)
        },
        InputScheme::Vim => if is_char(code, 'i') {
            KeyCommand::StartEditing
        } else if is_char(code, 'a') {
            KeyCommand::AppendAfterCursor
        } else if is_char(code, 'x') {
            KeyCommand::DeleteForward
        } else if is_char(code, '0') {
            KeyCommand::CursorHome
        } else if is_char(code, '$') {
            KeyCommand::CursorEnd
        } else {
            common_normal_key(code)
        },
    }
}

/// Whether the key asks to paste the clipboard: Ctrl+V (either case) or Shift+Insert.
pub open spec fn is_paste_key(key: KeyEvent) -> bool {
    (key.modifiers.control && is_letter(key.code, 'v', 'V')) || (key.modifiers.shift && key.code
        == KeyCode::Insert)
}

/// What a key asks of the application in the state `a`: modals and the setup
/// screen take their keys first, then the global function keys, then the keys of
/// the input mode.
pub open spec fn spec_key_command(a: App, key: KeyEvent) -> KeyCommand {
    if key.kind != KeyEventKind::Press {
        KeyCommand::Ignore
    } else if key.modifiers.control && is_char(key.code, 'c') {
        KeyCommand::Quit
    } else if a.help_modal is Some {
        help_key(key.code)
    } else if a.current_screen == CurrentScreen::Setup {
        setup_key(
            match a.setup_state {
                Some(st) => Some(st.phase),
                None => None,
            },
            key.code,
        )
    } else if key.code == KeyCode::F(1) {
        KeyCommand::ToggleHelp
    } else if key.code == KeyCode::F(4) {
        KeyCommand::ToggleHistory
    } else if key.code == KeyCode::F(3) {
        KeyCommand::TogglePath
    } else if a.history_modal is Some {
        history_key(key.code)
    } else if a.path_modal is Some {
        path_key(key)
    } else if a.detail_modal is Some {
        detail_key(key.code)
    } else if key.code == KeyCode::F(2) {
        KeyCommand::ToggleScheme
    } else if is_paste_key(key) {
        KeyCommand::PasteClipboard
    } else {
        match a.input_mode {
            InputMode::Editing => editing_key(key),
            InputMode::Normal => normal_key(a.input_scheme, key.code),
        }
    }
}

/// The help guide scrolled by the given command.
pub open spec fn scrolled_help(m: Option<HelpModal>, cmd: KeyCommand) -> Option<HelpModal> {
    match m {
        Some(h) => Some(
            HelpModal {
                scroll_offset: match cmd {
                    KeyCommand::HelpLineDown => if h.scroll_offset + 1 < HELP_LINES {
                        (h.scroll_offset + 1) as usize
                    } else {
                        h.scroll_offset
                    },
                    KeyCommand::HelpLineUp => if h.scroll_offset > 0 {
                        (h.scroll_offset - 1) as usize
                    } else {
                        0
                    },
                    KeyCommand::HelpPageDown => if h.scroll_offset + PAGE_LINES < HELP_LINES - 1 {
                        (h.scroll_offset + PAGE_LINES) as usize
                    } else {
                        (HELP_LINES - 1) as usize
                    },
                    KeyCommand::HelpPageUp => if h.scroll_offset >= PAGE_LINES {
                        (h.scroll_offset - PAGE_LINES) as usize
                    } else {
                        0
                    },
                    _ => 0,
                },
            },
        ),
        None => None,
    }
}

/// The history inspector with its selection moved by the given command, in a
/// history of `total` entries.
pub open spec fn moved_history(m: Option<HistoryModal>, cmd: KeyCommand, total: usize) -> Option<
    HistoryModal,
> {
    match m {
        Some(h) => Some(
            HistoryModal {
                selected: match cmd {
                    KeyCommand::HistoryNext => wrap_next(h.selected, total),
                    KeyCommand::HistoryPrevious => wrap_previous(h.selected, total),
                    KeyCommand::HistoryFirst => 0,
                    _ => if total > 0 {
                        (total - 1) as usize
                    } else {
                        h.selected
                    },
                },
                ..h
            },
        ),
        None => None,
    }
}

/// The download that an action starts, if it starts one.
pub open spec fn download_request(r: AppAction) -> Option<(usize, String)> {
    match r {
        AppAction::StartDownload { id, url } => Some((id, url)),
        _ => None,
    }
}

/// The path that an action asks to show, if it asks to show one.
pub open spec fn open_request(r: AppAction) -> Option<String> {
    match r {
        AppAction::OpenInFileManager { path } => Some(path),
        _ => None,
    }
}

/// The directory that an action asks to create, if it asks to create one.
pub open spec fn directory_request(r: AppAction) -> Option<String> {
    match r {
        AppAction::CreateDirectory { path } => Some(path),
        _ => None,
    }
}

/// Whether `b` is `a` with only its path modal edited, by `effect`.
pub open spec fn path_edited(a: App, b: App, effect: spec_fn(PathModal, PathModal) -> bool) -> bool {
    match a.path_modal {
        Some(m) => {
            &&& b == (App { path_modal: b.path_modal, ..a })
            &&& b.path_modal matches Some(n) && effect(m, n)
        },
        None => b == a,
    }
}

/// Whether `b` is `a` with only its URL input and cursor changed.
pub open spec fn input_edited(a: App, b: App) -> bool {
    b == (App { input_buffer: b.input_buffer, cursor_position: b.cursor_position, ..a })
}

/// The cursor after moving one character left or right, or to either end.
pub open spec fn moved_cursor(cursor: usize, len: nat, cmd: KeyCommand) -> usize {
    match cmd {
        KeyCommand::CursorLeft => if cursor > 0 {
            (cursor - 1) as usize
        } else {
            cursor
        },
        KeyCommand::CursorRight => if cursor < len {
            (cursor + 1) as usize
        } else {
            cursor
        },
        KeyCommand::CursorHome => 0,
        _ => len as usize,
    }
}

/// What carrying out `cmd` in the state `a` leads to: the state `b`, and the
/// outside work `r`.
pub open spec fn key_effect(a: App, b: App, cmd: KeyCommand, r: AppAction) -> bool {
    match cmd {
        KeyCommand::PasteClipboard => b == a && r is PasteClipboard,
        KeyCommand::RetryHistory => {
            &&& r is StartDownload || r is Nothing
            &&& retry_selected_history_effect(a, b, download_request(r))
        },
        KeyCommand::Submit => {
            &&& r is StartDownload || r is Nothing
            &&& submit_input_effect(a, b, download_request(r))
        },
        KeyCommand::OpenHistoryFile => {
            &&& r is OpenInFileManager || r is Nothing
            &&& selected_history_file_path_effect(a, b, open_request(r))
        },
        KeyCommand::CommitPath => {
            &&& r is CreateDirectory || r is Nothing
            &&& commit_path_modal_effect(a, b, directory_request(r))
        },
        _ => r is Nothing && match cmd {
            KeyCommand::Ignore => b == a,
            KeyCommand::Quit => b == (App { should_quit: true, ..a }),
            KeyCommand::CloseHelp => close_help_modal_effect(a, b),
            KeyCommand::HelpLineDown | KeyCommand::HelpLineUp | KeyCommand::HelpPageDown
            | KeyCommand::HelpPageUp | KeyCommand::HelpTop => b == (App {
                help_modal: scrolled_help(a.help_modal, cmd),
                ..a
            }),
            KeyCommand::OpenHelp => open_help_modal_effect(a, b),
            KeyCommand::FinishSetup => finish_setup_effect(a, b),
            KeyCommand::RetrySetup => retry_setup_effect(a, b),
            KeyCommand::SetupLineDown => setup_scroll_down_effect(a, b),
            KeyCommand::SetupLineUp => setup_scroll_up_effect(a, b),
            KeyCommand::SetupPageDown => b == (App {
                setup_state: scrolled_setup(a.setup_state, PAGE_LINES, true),
                ..a
            }),
            KeyCommand::SetupPageUp => b == (App {
                setup_state: scrolled_setup(a.setup_state, PAGE_LINES, false),
                ..a
            }),
            KeyCommand::SetupTop => b == (App {
                setup_state: match a.setup_state {
                    Some(st) => Some(SetupState { help_scroll: 0, ..st }),
                    None => None,
                },
                ..a
            }),
            KeyCommand::ToggleHelp => toggle_help_modal_effect(a, b),
            KeyCommand::ToggleHistory => toggle_history_modal_effect(a, b),
            KeyCommand::TogglePath => toggle_path_modal_effect(a, b),
            KeyCommand::ToggleScheme => toggle_input_scheme_effect(a, b),
            KeyCommand::CloseHistory => close_history_modal_effect(a, b),
            KeyCommand::HistoryNext | KeyCommand::HistoryPrevious | KeyCommand::HistoryFirst
            | KeyCommand::HistoryLast => b == (App {
                history_modal: moved_history(a.history_modal, cmd, a.history@.len() as usize),
                ..a
            }),
            KeyCommand::DeleteHistory => delete_selected_history_entry_effect(a, b),
            KeyCommand::PathResetDefault => path_edited(
                a,
                b,
                |m: PathModal, n: PathModal| path_reset_default_effect(m, n),
            ),
            KeyCommand::PathClear => path_edited(
                a,
                b,
                |m: PathModal, n: PathModal| path_clear_effect(m, n),
            ),
            KeyCommand::CancelPath => cancel_path_modal_effect(a, b),
            KeyCommand::PathLeft => path_edited(
                a,
                b,
                |m: PathModal, n: PathModal| path_move_left_effect(m, n),
            ),
            KeyCommand::PathRight => path_edited(
                a,
                b,
                |m: PathModal, n: PathModal| path_move_right_effect(m, n),
            ),
            KeyCommand::PathHome => path_edited(
                a,
                b,
                |m: PathModal, n: PathModal| path_move_home_effect(m, n),
            ),
            KeyCommand::PathEnd => path_edited(
                a,
                b,
                |m: PathModal, n: PathModal| path_move_end_effect(m, n),
            ),
            KeyCommand::PathBackspace => path_edited(
                a,
                b,
                |m: PathModal, n: PathModal| path_backspace_effect(m, n),
            ),
            KeyCommand::PathDelete => path_edited(
                a,
                b,
                |m: PathModal, n: PathModal| path_delete_effect(m, n),
            ),
            KeyCommand::PathInsert(c) => path_edited(
                a,
                b,
                |m: PathModal, n: PathModal| path_insert_char_effect(m, n, c),
            ),
            KeyCommand::CloseModal => close_modal_effect(a, b),
            KeyCommand::DetailUp => modal_scroll_up_effect(a, b),
            KeyCommand::DetailDown => modal_scroll_down_effect(a, b),
            KeyCommand::LeaveEditing => b == (App { input_mode: InputMode::Normal, ..a }),
            KeyCommand::InsertChar(c) => {
                let k = clamped_cursor(a.cursor_position, a.input_buffer@.len());
                &&& input_edited(a, b)
                &&& b.input_buffer@ == a.input_buffer@.insert(k as int, c)
                &&& b.cursor_position == k + 1
            },
            KeyCommand::DeleteBack => if 0 < a.cursor_position <= a.input_buffer@.len() {
                &&& input_edited(a, b)
                &&& b.input_buffer@ == a.input_buffer@.remove(a.cursor_position - 1)
                &&& b.cursor_position == a.cursor_position - 1
            } else {
                b == a
            },
            KeyCommand::DeleteForward => if a.cursor_position < a.input_buffer@.len() {
                &&& input_edited(a, b)
                &&& b.input_buffer@ == a.input_buffer@.remove(a.cursor_position as int)
                &&& b.cursor_position == a.cursor_position
            } else {
                b == a
            },
            KeyCommand::CursorLeft | KeyCommand::CursorRight | KeyCommand::CursorHome
            | KeyCommand::CursorEnd => b == (App {
                cursor_position: moved_cursor(a.cursor_position, a.input_buffer@.len(), cmd),
                ..a
            }),
            KeyCommand::StartEditing => b == (App { input_mode: InputMode::Editing, ..a }),
            KeyCommand::StartEditingAtEnd => b == (App {
                input_mode: InputMode::Editing,
                cursor_position: a.input_buffer@.len() as usize,
                ..a
            }),
            KeyCommand::AppendAfterCursor => b == (App {
                input_mode: InputMode::Editing,
                cursor_position: moved_cursor(
                    a.cursor_position,
                    a.input_buffer@.len(),
                    KeyCommand::CursorRight,
                ),
                ..a
            }),
            KeyCommand::NextDownload => next_download_effect(a, b),
            KeyCommand::PreviousDownload => previous_download_effect(a, b),
            KeyCommand::OpenDetails => open_selected_details_effect(a, b),
            KeyCommand::OpenPath => open_path_modal_effect(a, b),
            KeyCommand::OpenHistory => open_history_modal_effect(a, b),
            _ => false,
        },
    }
}

/// What the handlers of key, paste and mouse events need of the state to stay
/// within machine limits: room for one more download id and one more character
/// in each text being edited.
pub open spec fn within_limits(a: App) -> bool {
    &&& a.next_download_id < usize::MAX
    &&& a.input_buffer@.len() < usize::MAX
    &&& a.path_modal matches Some(m) ==> m.input@.len() < usize::MAX
}

fn letter(code: KeyCode, lower: char, upper: char) -> (b: bool)
    ensures
        b == is_letter(code, lower, upper),
{
    code == KeyCode::Char(lower) || code == KeyCode::Char(upper)
}

fn help_command(code: KeyCode) -> (r: KeyCommand)
    ensures
        r == help_key(code),
{
    if code == KeyCode::Esc || code == KeyCode::Enter || letter(code, 'q', 'Q') || code
        == KeyCode::Char('?') || code == KeyCode::F(1) {
        KeyCommand::CloseHelp
    } else if code == KeyCode::Down || letter(code, 'j', 'J') {
        KeyCommand::HelpLineDown
    } else if code == KeyCode::Up || letter(code, 'k', 'K') {
        KeyCommand::HelpLineUp
    } else if code == KeyCode::PageDown {
        KeyCommand::HelpPageDown
    } else if code == KeyCode::PageUp {
        KeyCommand::HelpPageUp
    } else if code == KeyCode::Home {
        KeyCommand::HelpTop
    } else {
        KeyCommand::Ignore
    }
}

fn setup_command(setup: &Option<SetupState>, code: KeyCode) -> (r: KeyCommand)
    ensures
        r == setup_key(
            match *setup {
                Some(st) => Some(st.phase),
                None => None,
            },
            code,
        ),
{
    let complete = match setup {
        Some(st) => matches!(st.phase, SetupPhase::Complete),
        None => false,
    };
    let failed = match setup {
        Some(st) => matches!(st.phase, SetupPhase::Error(_)),
        None => false,
    };
    if code == KeyCode::Char('?') || code == KeyCode::F(1) {
        KeyCommand::OpenHelp
    } else if complete && code == KeyCode::Enter {
        KeyCommand::FinishSetup
    } else if failed && letter(code, 'r', 'R') {
        KeyCommand::RetrySetup
    } else if failed && letter(code, 'c', 'C') {
        KeyCommand::FinishSetup
    } else if letter(code, 'q', 'Q') {
        KeyCommand::Quit
    } else if code == KeyCode::Down || letter(code, 'j', 'J') {
        KeyCommand::SetupLineDown
    } else if code == KeyCode::Up || letter(code, 'k', 'K') {
        KeyCommand::SetupLineUp
    } else if code == KeyCode::PageDown {
        KeyCommand::SetupPageDown
    } else if code == KeyCode::PageUp {
        KeyCommand::SetupPageUp
    } else if code == KeyCode::Home {
        KeyCommand::SetupTop
    } else {
        KeyCommand::Ignore
    }
}

fn history_command(code: KeyCode) -> (r: KeyCommand)
    ensures
        r == history_key(code),
{
    if code == KeyCode::Esc || letter(code, 'q', 'Q') || letter(code, 'g', 'G') || code
        == KeyCode::F(4) {
        KeyCommand::CloseHistory
    } else if code == KeyCode::Down || letter(code, 'j', 'J') {
        KeyCommand::HistoryNext
    } else if code == KeyCode::Up || letter(code, 'k', 'K') {
        KeyCommand::HistoryPrevious
    } else if code == KeyCode::Home {
        KeyCommand::HistoryFirst
    } else if code == KeyCode::End {
        KeyCommand::HistoryLast
    } else if letter(code, 'r', 'R') {
        KeyCommand::RetryHistory
    } else if letter(code, 'o', 'O') || code == KeyCode::Enter {
        KeyCommand::OpenHistoryFile
    } else if letter(code, 'd', 'D') {
        KeyCommand::DeleteHistory
    } else {
        KeyCommand::Ignore
    }
}

fn path_command(key: KeyEvent) -> (r: KeyCommand)
    ensures
        r == path_key(key),
{
    let code = key.code;
    if key.modifiers.control {
        if letter(code, 'v', 'V') {
            KeyCommand::PasteClipboard
        } else if letter(code, 'd', 'D') {
            KeyCommand::PathResetDefault
        } else if letter(code, 'u', 'U') {
            KeyCommand::PathClear
        } else {
            KeyCommand::Ignore
        }
    } else if key.modifiers.shift && code == KeyCode::Insert {
        KeyCommand::PasteClipboard
    } else {
        match code {
            KeyCode::Enter => KeyCommand::CommitPath,
            KeyCode::Esc => KeyCommand::CancelPath,
            KeyCode::Left => KeyCommand::PathLeft,
            KeyCode::Right => KeyCommand::PathRight,
            KeyCode::Home => KeyCommand::PathHome,
            KeyCode::End => KeyCommand::PathEnd,
            KeyCode::Backspace => KeyCommand::PathBackspace,
            KeyCode::Delete => KeyCommand::PathDelete,
            KeyCode::Char(c) => KeyCommand::PathInsert(c),
            _ => KeyCommand::Ignore,
        }
    }
}

fn detail_command(code: KeyCode) -> (r: KeyCommand)
    ensures
        r == detail_key(code),
{
    if code == KeyCode::Esc || code == KeyCode::Enter || code == KeyCode::Char('q') {
        KeyCommand::CloseModal
    } else if code == KeyCode::Up || code == KeyCode::Char('k') {
        KeyCommand::DetailUp
    } else if code == KeyCode::Down || code == KeyCode::Char('j') {
        KeyCommand::DetailDown
    } else {
        KeyCommand::Ignore
    }
}

fn editing_command(key: KeyEvent) -> (r: KeyCommand)
    ensures
        r == editing_key(key),
{
    match key.code {
        KeyCode::Enter => KeyCommand::Submit,
        KeyCode::Esc => KeyCommand::LeaveEditing,
        KeyCode::Char(c) => if key.modifiers.control {
            KeyCommand::Ignore
        } else {
            KeyCommand::InsertChar(c)
        },
        KeyCode::Backspace => KeyCommand::DeleteBack,
        KeyCode::Delete => KeyCommand::DeleteForward,
        KeyCode::Left => KeyCommand::CursorLeft,
        KeyCode::Right => KeyCommand::CursorRight,
        KeyCode::Home => KeyCommand::CursorHome,
        KeyCode::End => KeyCommand::CursorEnd,
        _ => KeyCommand::Ignore,
    }
}

fn common_normal_command(code: KeyCode) -> (r: KeyCommand)
    ensures
        r == common_normal_key(code),
{
    if code == KeyCode::Char('q') {
        KeyCommand::Quit
    } else if code == KeyCode::Char('j') || code == KeyCode::Down {
        KeyCommand::NextDownload
    } else if code == KeyCode::Char('k') || code == KeyCode::Up {
        KeyCommand::PreviousDownload
    } else if code == KeyCode::Char('e') {
        KeyCommand::OpenDetails
    } else if code == KeyCode::Char('p') {
        KeyCommand::OpenPath
    } else if letter(code, 'g', 'G') {
        KeyCommand::OpenHistory
    } else if code == KeyCode::Char('?') {
        KeyCommand::OpenHelp
    } else {
        KeyCommand::Ignore
    }
}

fn normal_command(scheme: InputScheme, code: KeyCode) -> (r: KeyCommand)
    ensures
        r == normal_key(scheme, code),
{
    match scheme {
        InputScheme::StandardModal => if code == KeyCode::Char('i') || code == KeyCode::Enter {
            KeyCommand::StartEditingAtEnd
        } else {
            common_normal_command(code)
        },
        InputScheme::Vim => if code == KeyCode::Char('i') {
            KeyCommand::StartEditing
        } else if code == KeyCode::Char('a') {
            KeyCommand::AppendAfterCursor
        } else if code == KeyCode::Char('x') {
            KeyCommand::DeleteForward
        } else if code == KeyCode::Char('0') {
            KeyCommand::CursorHome
        } else if code == KeyCode::Char('$') {
            KeyCommand::CursorEnd
        } else {
            common_normal_command(code)
        },
    }
}

/// What a key asks of the application in its current state.
pub fn key_command(app: &App, key: KeyEvent) -> (r: KeyCommand)
    ensures
        r == spec_key_command(*app, key),
{
    if key.kind != KeyEventKind::Press {
        KeyCommand::Ignore
    } else if key.modifiers.control && key.code == KeyCode::Char('c') {
        KeyCommand::Quit
    } else if app.help_modal.is_some() {
        help_command(key.code)
    } else if app.current_screen == CurrentScreen::Setup {
        setup_command(&app.setup_state, key.code)
    } else if key.code == KeyCode::F(1) {
        KeyCommand::ToggleHelp
    } else if key.code == KeyCode::F(4) {
        KeyCommand::ToggleHistory
    } else if key.code == KeyCode::F(3) {
        KeyCommand::TogglePath
    } else if app.history_modal.is_some() {
        history_command(key.code)
    } else if app.path_modal.is_some() {
        path_command(key)
    } else if app.detail_modal.is_some() {
        detail_command(key.code)
    } else if key.code == KeyCode::F(2) {
        KeyCommand::ToggleScheme
    } else if (key.modifiers.control && letter(key.code, 'v', 'V')) || (key.modifiers.shift
        && key.code == KeyCode::Insert) {
        KeyCommand::PasteClipboard
    } else {
        match app.input_mode {
            InputMode::Editing => editing_command(key),
            InputMode::Normal => normal_command(app.input_scheme, key.code),
        }
    }
}

fn path_modal_command(app: &mut App, cmd: KeyCommand)
    requires
        old(app).path_modal matches Some(m) ==> m.input@.len() < usize::MAX,
        match cmd {
            KeyCommand::PathResetDefault | KeyCommand::PathClear | KeyCommand::PathLeft
            | KeyCommand::PathRight | KeyCommand::PathHome | KeyCommand::PathEnd
            | KeyCommand::PathBackspace | KeyCommand::PathDelete | KeyCommand::PathInsert(_) => true,
            _ => false,
        },
    ensures
        key_effect(*old(app), *final(app), cmd, AppAction::Nothing),
{
    if let Some(m) = &mut app.path_modal {
        match cmd {
            KeyCommand::PathResetDefault => m.reset_default(),
            KeyCommand::PathClear => m.clear(),
            KeyCommand::PathLeft => m.move_left(),
            KeyCommand::PathRight => m.move_right(),
            KeyCommand::PathHome => m.move_home(),
            KeyCommand::PathEnd => m.move_end(),
            KeyCommand::PathBackspace => m.backspace(),
            KeyCommand::PathDelete => m.delete(),
            KeyCommand::PathInsert(c) => m.insert_char(c),
            _ => {},
        }
    }
}

fn input_command(app: &mut App, cmd: KeyCommand)
    requires
        old(app).input_buffer@.len() < usize::MAX,
        match cmd {
            KeyCommand::InsertChar(_) | KeyCommand::DeleteBack | KeyCommand::DeleteForward
            | KeyCommand::CursorLeft | KeyCommand::CursorRight | KeyCommand::CursorHome
            | KeyCommand::CursorEnd | KeyCommand::StartEditing | KeyCommand::StartEditingAtEnd
            | KeyCommand::AppendAfterCursor | KeyCommand::LeaveEditing => true,
            _ => false,
        },
    ensures
        key_effect(*old(app), *final(app), cmd, AppAction::Nothing),
{
    let count = char_count(app.input_buffer.as_str());
    match cmd {
        KeyCommand::InsertChar(c) => {
            if app.cursor_position > count {
                app.cursor_position = count;
            }
            let k = app.cursor_position;
            let single = string_of_char(c);
            let next = insert_str_at(app.input_buffer.as_str(), k, single.as_str());
            assert(next@ =~= old(app).input_buffer@.insert(k as int, c));
            app.input_buffer = next;
            app.cursor_position = k + 1;
        },
        KeyCommand::DeleteBack => {
            if app.cursor_position > 0 && app.cursor_position <= count {
                let k = app.cursor_position - 1;
                app.input_buffer = remove_char_at(app.input_buffer.as_str(), k);
                app.cursor_position = k;
            }
        },
        KeyCommand::DeleteForward => {
            if app.cursor_position < count {
                app.input_buffer = remove_char_at(app.input_buffer.as_str(), app.cursor_position);
            }
        },
        KeyCommand::CursorLeft => {
            if app.cursor_position > 0 {
                app.cursor_position = app.cursor_position - 1;
            }
        },
        KeyCommand::CursorRight => {
            if app.cursor_position < count {
                app.cursor_position = app.cursor_position + 1;
            }
        },
        KeyCommand::CursorHome => {
            app.cursor_position = 0;
        },
        KeyCommand::CursorEnd => {
            app.cursor_position = count;
        },
        KeyCommand::StartEditing => {
            app.input_mode = InputMode::Editing;
        },
        KeyCommand::StartEditingAtEnd => {
            app.input_mode = InputMode::Editing;
            app.cursor_position = count;
        },
        KeyCommand::AppendAfterCursor => {
            app.input_mode = InputMode::Editing;
            if app.cursor_position < count {
                app.cursor_position = app.cursor_position + 1;
            }
        },
        _ => {
            app.input_mode = InputMode::Normal;
        },
    }
}

fn scroll_command(app: &mut App, cmd: KeyCommand)
    requires
        match cmd {
            KeyCommand::HelpLineDown | KeyCommand::HelpLineUp | KeyCommand::HelpPageDown
            | KeyCommand::HelpPageUp | KeyCommand::HelpTop | KeyCommand::SetupLineDown
            | KeyCommand::SetupLineUp | KeyCommand::SetupPageDown | KeyCommand::SetupPageUp
            | KeyCommand::SetupTop | KeyCommand::HistoryNext | KeyCommand::HistoryPrevious
            | KeyCommand::HistoryFirst | KeyCommand::HistoryLast | KeyCommand::DetailUp
            | KeyCommand::DetailDown => true,
            _ => false,
        },
    ensures
        key_effect(*old(app), *final(app), cmd, AppAction::Nothing),
{
    let total = app.history.len();
    match cmd {
        KeyCommand::HelpLineDown => {
            if let Some(m) = &mut app.help_modal {
                m.scroll_down(HELP_LINES);
            }
        },
        KeyCommand::HelpLineUp => {
            if let Some(m) = &mut app.help_modal {
                m.scroll_up();
            }
        },
        KeyCommand::HelpPageDown => {
            if let Some(m) = &mut app.help_modal {
                m.page_down(HELP_LINES, PAGE_LINES);
            }
        },
        KeyCommand::HelpPageUp => {
            if let Some(m) = &mut app.help_modal {
                m.page_up(PAGE_LINES);
            }
        },
        KeyCommand::HelpTop => {
            if let Some(m) = &mut app.help_modal {
                m.scroll_offset = 0;
            }
        },
        KeyCommand::SetupLineDown => app.setup_scroll_down(),
        KeyCommand::SetupLineUp => app.setup_scroll_up(),
        KeyCommand::SetupPageDown => app.setup_scroll_by(PAGE_LINES, true),
        KeyCommand::SetupPageUp => app.setup_scroll_by(PAGE_LINES, false),
        KeyCommand::SetupTop => {
            if let Some(st) = &mut app.setup_state {
                st.help_scroll = 0;
            }
        },
        KeyCommand::HistoryNext => {
            if let Some(m) = &mut app.history_modal {
                m.next(total);
            }
        },
        KeyCommand::HistoryPrevious => {
            if let Some(m) = &mut app.history_modal {
                m.previous(total);
            }
        },
        KeyCommand::HistoryFirst => {
            if let Some(m) = &mut app.history_modal {
                m.selected = 0;
            }
        },
        KeyCommand::HistoryLast => {
            if let Some(m) = &mut app.history_modal {
                if total > 0 {
                    m.selected = total - 1;
                }
            }
        },
        KeyCommand::DetailUp => app.modal_scroll_up(),
        _ => app.modal_scroll_down(),
    }
}

/// Carries out a key command: changes the state and returns the outside work
/// that is left to do.
pub fn run_key_command(app: &mut App, cmd: KeyCommand) -> (r: AppAction)
    requires
        within_limits(*old(app)),
    ensures
        key_effect(*old(app), *final(app), cmd, r),
{
    match cmd {
        KeyCommand::PasteClipboard => AppAction::PasteClipboard,
        KeyCommand::RetryHistory => match app.retry_selected_history() {
            Some((id, url)) => AppAction::StartDownload { id, url },
            None => AppAction::Nothing,
        },
        KeyCommand::Submit => match app.submit_input() {
            Some((id, url)) => AppAction::StartDownload { id, url },
            None => AppAction::Nothing,
        },
        KeyCommand::OpenHistoryFile => match app.selected_history_file_path() {
            Some(path) => AppAction::OpenInFileManager { path },
            None => AppAction::Nothing,
        },
        KeyCommand::CommitPath => match app.commit_path_modal() {
            Some(path) => AppAction::CreateDirectory { path },
            None => AppAction::Nothing,
        },
        KeyCommand::Ignore => AppAction::Nothing,
        KeyCommand::Quit => {
            app.should_quit = true;
            AppAction::Nothing
        },
        KeyCommand::CloseHelp => {
            app.close_help_modal();
            AppAction::Nothing
        },
        KeyCommand::OpenHelp => {
            app.open_help_modal();
            AppAction::Nothing
        },
        KeyCommand::FinishSetup => {
            app.finish_setup();
            AppAction::Nothing
        },
        KeyCommand::RetrySetup => {
            app.retry_setup();
            AppAction::Nothing
        },
        KeyCommand::ToggleHelp => {
            app.toggle_help_modal();
            AppAction::Nothing
        },
        KeyCommand::ToggleHistory => {
            app.toggle_history_modal();
            AppAction::Nothing
        },
        KeyCommand::TogglePath => {
            app.toggle_path_modal();
            AppAction::Nothing
        },
        KeyCommand::ToggleScheme => {
            app.toggle_input_scheme();
            AppAction::Nothing
        },
        KeyCommand::CloseHistory => {
            app.close_history_modal();
            AppAction::Nothing
        },
        KeyCommand::DeleteHistory => {
            app.delete_selected_history_entry();
            AppAction::Nothing
        },
        KeyCommand::CancelPath => {
            app.cancel_path_modal();
            AppAction::Nothing
        },
        KeyCommand::CloseModal => {
            app.close_modal();
            AppAction::Nothing
        },
        KeyCommand::NextDownload => {
            app.next_download();
            AppAction::Nothing
        },
        KeyCommand::PreviousDownload => {
            app.previous_download();
            AppAction::Nothing
        },
        KeyCommand::OpenDetails => {
            app.open_selected_details();
            AppAction::Nothing
        },
        KeyCommand::OpenPath => {
            app.open_path_modal();
            AppAction::Nothing
        },
        KeyCommand::OpenHistory => {
            app.open_history_modal();
            AppAction::Nothing
        },
        KeyCommand::PathResetDefault | KeyCommand::PathClear | KeyCommand::PathLeft
        | KeyCommand::PathRight | KeyCommand::PathHome | KeyCommand::PathEnd
        | KeyCommand::PathBackspace | KeyCommand::PathDelete | KeyCommand::PathInsert(_) => {
            path_modal_command(app, cmd);
            AppAction::Nothing
        },
        KeyCommand::InsertChar(_) | KeyCommand::DeleteBack | KeyCommand::DeleteForward
        | KeyCommand::CursorLeft | KeyCommand::CursorRight | KeyCommand::CursorHome
        | KeyCommand::CursorEnd | KeyCommand::StartEditing | KeyCommand::StartEditingAtEnd
        | KeyCommand::AppendAfterCursor | KeyCommand::LeaveEditing => {
            input_command(app, cmd);
            AppAction::Nothing
        },
        _ => {
            scroll_command(app, cmd);
            AppAction::Nothing
        },
    }
}

/// Dispatches a key event: works out what it asks of the application in its
/// current state and carries that out, returning the outside work left to do.
pub fn handle_key_event(app: &mut App, key: KeyEvent) -> (r: AppAction)
    requires
        within_limits(*old(app)),
    ensures
        key_effect(*old(app), *final(app), spec_key_command(*old(app), key), r),
{
    let cmd = key_command(app, key);
    run_key_command(app, cmd)
}

/// Whether a paste of `text` keeps the state within machine limits.
pub open spec fn paste_within_limits(a: App, text: Seq<char>) -> bool {
    &&& a.input_buffer@.len() + text.len() <= usize::MAX
    &&& a.path_modal matches Some(m) ==> m.input@.len() + text.len() <= usize::MAX
}

/// What pasting `text` does to the state `a`: the path editor takes the sanitized
/// text when it is open; the URL input takes it on the main screen when no other
/// modal is open; otherwise nothing happens.
pub open spec fn paste_effect(a: App, b: App, text: Seq<char>) -> bool {
    if a.path_modal is Some {
        path_edited(
            a,
            b,
            |m: PathModal, n: PathModal| path_insert_str_effect(
                m,
                n,
                spec_sanitize_clipboard_text(text),
            ),
        )
    } else if a.help_modal is Some || a.history_modal is Some || a.detail_modal is Some {
        b == a
    } else if a.current_screen == CurrentScreen::Main {
        paste_text_to_input_effect(a, b, text)
    } else {
        b == a
    }
}

/// Handles a paste event (from terminal bracketed paste or keyboard/mouse action).
pub fn handle_paste_event(app: &mut App, text: &str)
    requires
        paste_within_limits(*old(app), text@),
    ensures
        paste_effect(*old(app), *final(app), text@),
{
    proof {
        lemma_sanitize_clipboard_text_shorter(text@);
    }
    if let Some(modal) = &mut app.path_modal {
        let sanitized = sanitize_clipboard_text(text);
        modal.insert_str(sanitized.as_str());
        return ;
    }
    if app.help_modal.is_some() || app.history_modal.is_some() || app.detail_modal.is_some() {
        return ;
    }
    if app.current_screen == CurrentScreen::Main {
        app.paste_text_to_input(text);
    }
}

/// A mouse button.
#[derive(Debug, Clone, Copy, PartialEq, Eq, Structural)]
pub enum MouseButton {
    Left,
    Right,
    Middle,
}

/// What the mouse did.
#[derive(Debug, Clone, Copy, PartialEq, Eq, Structural)]
pub enum MouseEventKind {
    Down(MouseButton),
    Up(MouseButton),
    Drag(MouseButton),
    Moved,
    ScrollDown,
    ScrollUp,
    ScrollLeft,
    ScrollRight,
}

/// A mouse event from the terminal, at a cell of the screen.
#[derive(Debug, Clone, Copy, PartialEq, Eq, Structural)]
pub struct MouseEvent {
    pub kind: MouseEventKind,
    pub column: u16,
    pub row: u16,
}

/// The first row of the URL input on the main screen (the header takes rows 0..3).
pub const INPUT_FIRST_ROW: u16 = 3;

/// The last row of the URL input on the main screen.
pub const INPUT_LAST_ROW: u16 = 5;

/// The first row of the first download of the list (below the list's border).
pub const LIST_FIRST_ROW: u16 = 7;

/// The rows each download takes in the list.
pub const ITEM_ROWS: u16 = 3;

/// The first row of the setup screen's footer, which starts the application once
/// setup is complete.
pub const SETUP_FOOTER_ROW: u16 = 18;

/// The download that the list shows on `row`, when `list_rows` rows inside the
/// list's border are in view: the first download in view plus the slot of the
/// row. None for a row outside the list (its borders, the footer below it) and
/// for empty space after the last download.
pub open spec fn clicked_download(a: App, row: u16, list_rows: u16) -> Option<int> {
    if LIST_FIRST_ROW <= row && row < LIST_FIRST_ROW + list_rows && a.selected_download
        < a.downloads@.len() {
        let (start, end) = spec_list_window(
            a.selected_download,
            a.downloads@.len() as usize,
            list_rows,
        );
        let idx = start + (row - LIST_FIRST_ROW) / (ITEM_ROWS as int);
        if idx < end {
            Some(idx)
        } else {
            None
        }
    } else {
        None
    }
}

/// What a left click at (`column`, `row`) does to the state `a` on the main
/// screen with no modal open, with `list_rows` rows of downloads in view.
pub open spec fn main_click_effect(a: App, b: App, column: u16, row: u16, list_rows: u16) -> bool {
    if INPUT_FIRST_ROW <= row <= INPUT_LAST_ROW {
        let col = if column > 0 {
            column - 1
        } else {
            0
        };
        b == (App {
            input_mode: InputMode::Editing,
            cursor_position: vstd::math::min(col, a.input_buffer@.len() as int) as usize,
            ..a
        })
    } else {
        match clicked_download(a, row, list_rows) {
            Some(idx) => if a.selected_download == idx {
                open_selected_details_effect(App { input_mode: InputMode::Normal, ..a }, b)
            } else {
                b == (App { input_mode: InputMode::Normal, selected_download: idx as usize, ..a })
            },
            None => b == a,
        }
    }
}

/// What the mouse event `mouse` does to the state `a`, and the outside work `r`
/// that it asks for.
pub open spec fn mouse_effect(
    a: App,
    b: App,
    mouse: MouseEvent,
    list_rows: u16,
    r: AppAction,
) -> bool {
    match mouse.kind {
        MouseEventKind::Down(MouseButton::Right) => b == a && if a.help_modal is Some
            || a.history_modal is Some || a.detail_modal is Some {
            r is Nothing
        } else {
            r is PasteClipboard
        },
        MouseEventKind::Down(MouseButton::Left) => r is Nothing && if a.help_modal is Some
            || a.detail_modal is Some || a.history_modal is Some || a.path_modal is Some {
            b == a
        } else if a.current_screen == CurrentScreen::Setup {
            if a.setup_state matches Some(st) && st.phase == SetupPhase::Complete && mouse.row
                >= SETUP_FOOTER_ROW {
                finish_setup_effect(a, b)
            } else {
                b == a
            }
        } else {
            main_click_effect(a, b, mouse.column, mouse.row, list_rows)
        },
        MouseEventKind::ScrollDown => r is Nothing && if a.help_modal is Some {
            b == (App { help_modal: scrolled_help(a.help_modal, KeyCommand::HelpLineDown), ..a })
        } else if a.history_modal is Some {
            b == (App {
                history_modal: moved_history(
                    a.history_modal,
                    KeyCommand::HistoryNext,
                    a.history@.len() as usize,
                ),
                ..a
            })
        } else if a.detail_modal is Some {
            modal_scroll_down_effect(a, b)
        } else if a.path_modal is Some {
            b == a
        } else if a.current_screen == CurrentScreen::Setup {
            setup_scroll_down_effect(a, b)
        } else {
            next_download_effect(a, b)
        },
        MouseEventKind::ScrollUp => r is Nothing && if a.help_modal is Some {
            b == (App { help_modal: scrolled_help(a.help_modal, KeyCommand::HelpLineUp), ..a })
        } else if a.history_modal is Some {
            b == (App {
                history_modal: moved_history(
                    a.history_modal,
                    KeyCommand::HistoryPrevious,
                    a.history@.len() as usize,
                ),
                ..a
            })
        } else if a.detail_modal is Some {
            modal_scroll_up_effect(a, b)
        } else if a.path_modal is Some {
            b == a
        } else if a.current_screen == CurrentScreen::Setup {
            setup_scroll_up_effect(a, b)
        } else {
            previous_download_effect(a, b)
        },
        _ => b == a && r is Nothing,
    }
}

fn click_main_screen(app: &mut App, column: u16, row: u16, list_rows: u16)
    requires
        old(app).current_screen == CurrentScreen::Main,
    ensures
        main_click_effect(*old(app), *final(app), column, row, list_rows),
{
    if INPUT_FIRST_ROW <= row && row <= INPUT_LAST_ROW {
        app.input_mode = InputMode::Editing;
        let col: usize = if column > 0 {
            (column - 1) as usize
        } else {
            0
        };
        let count = char_count(app.input_buffer.as_str());
        app.cursor_position = if col < count {
            col
        } else {
            count
        };
        return ;
    }
    if row >= LIST_FIRST_ROW && row - LIST_FIRST_ROW < list_rows && app.selected_download
        < app.downloads.len() {
        let (start, end) = list_window(app.selected_download, app.downloads.len(), list_rows);
        let slot: usize = ((row - LIST_FIRST_ROW) / ITEM_ROWS) as usize;
        if slot < end - start {
            let idx = start + slot;
            app.input_mode = InputMode::Normal;
            if app.selected_download == idx {
                app.open_selected_details();
            } else {
                app.selected_download = idx;
            }
        }
    }
}

/// Handles mouse click, scroll and drag interactions across the TUI, returning the
/// outside work left to do. `list_rows` is the height inside the border of the
/// downloads list as last drawn, which decides the download that a click reaches.
pub fn handle_mouse_event(app: &mut App, mouse: MouseEvent, list_rows: u16) -> (r: AppAction)
    ensures
        mouse_effect(*old(app), *final(app), mouse, list_rows, r),
{
    match mouse.kind {
        MouseEventKind::Down(MouseButton::Right) => {
            if app.help_modal.is_some() || app.history_modal.is_some()
                || app.detail_modal.is_some() {
                AppAction::Nothing
            } else {
                AppAction::PasteClipboard
            }
        },
        MouseEventKind::Down(MouseButton::Left) => {
            if app.help_modal.is_some() || app.detail_modal.is_some()
                || app.history_modal.is_some() || app.path_modal.is_some() {
                return AppAction::Nothing;
            }
            if app.current_screen == CurrentScreen::Setup {
                let complete = match &app.setup_state {
                    Some(st) => matches!(st.phase, SetupPhase::Complete),
                    None => false,
                };
                if complete && mouse.row >= SETUP_FOOTER_ROW {
                    app.finish_setup();
                }
                return AppAction::Nothing;
            }
            click_main_screen(app, mouse.column, mouse.row, list_rows);
            AppAction::Nothing
        },
        MouseEventKind::ScrollDown => {
            let total = app.history.len();
            if let Some(m) = &mut app.help_modal {
                m.scroll_down(HELP_LINES);
            } else if let Some(m) = &mut app.history_modal {
                m.next(total);
            } else if app.detail_modal.is_some() {
                app.modal_scroll_down();
            } else if app.path_modal.is_some() {
            } else if app.current_screen == CurrentScreen::Setup {
                app.setup_scroll_down();
            } else {
                app.next_download();
            }
            AppAction::Nothing
        },
        MouseEventKind::ScrollUp => {
            let total = app.history.len();
            if let Some(m) = &mut app.help_modal {
                m.scroll_up();
            } else if let Some(m) = &mut app.history_modal {
                m.previous(total);
            } else if app.detail_modal.is_some() {
                app.modal_scroll_up();
            } else if app.path_modal.is_some() {
            } else if app.current_screen == CurrentScreen::Setup {
                app.setup_scroll_up();
            } else {
                app.previous_download();
            }
            AppAction::Nothing
        },
        _ => AppAction::Nothing,
    }
}

/// In the URL input, Backspace takes back the character just typed.
pub proof fn lemma_type_then_backspace(a: App, b: App, d: App, c: char)
    requires
        a.cursor_position <= a.input_buffer@.len(),
        key_effect(a, b, KeyCommand::InsertChar(c), AppAction::Nothing),
        key_effect(b, d, KeyCommand::DeleteBack, AppAction::Nothing),
    ensures
        d.input_buffer@ == a.input_buffer@,
        d.cursor_position == a.cursor_position,
        d == (App { input_buffer: d.input_buffer, ..a }),
{
    assert(a.input_buffer@.insert(a.cursor_position as int, c).remove(a.cursor_position as int)
        =~= a.input_buffer@);
}

/// In the log viewer on the main screen, the Up arrow and `k` scroll the log one
/// line up (stopping at the top), and the Down arrow and `j` one line down
/// (stopping at the last line); nothing else changes.
pub proof fn lemma_log_viewer_arrow_keys(a: App, b: App, key: KeyEvent, r: AppAction)
    requires
        key.kind == KeyEventKind::Press,
        a.current_screen == CurrentScreen::Main,
        a.help_modal is None,
        a.history_modal is None,
        a.path_modal is None,
        a.detail_modal is Some,
        key_effect(a, b, spec_key_command(a, key), r),
    ensures
        (key.code == KeyCode::Up || key.code == KeyCode::Char('k')) ==> {
            let m = a.detail_modal->Some_0;
            &&& b.detail_modal is Some
            &&& b.detail_modal->Some_0.scroll_offset == if m.scroll_offset > 0 {
                m.scroll_offset - 1
            } else {
                0
            }
            &&& b.detail_modal->Some_0.logs == m.logs
            &&& b == (App { detail_modal: b.detail_modal, ..a })
        },
        (key.code == KeyCode::Down || key.code == KeyCode::Char('j')) ==> {
            let m = a.detail_modal->Some_0;
            &&& b.detail_modal is Some
            &&& b.detail_modal->Some_0.scroll_offset == if m.scroll_offset + 1 < m.logs@.len() {
                m.scroll_offset + 1
            } else {
                m.scroll_offset as int
            }
            &&& b.detail_modal->Some_0.logs == m.logs
            &&& b == (App { detail_modal: b.detail_modal, ..a })
        },
{
    assert(a.detail_modal->Some_0.logs.len() == a.detail_modal->Some_0.logs@.len());
}

/// With the history inspector open (and no help guide over it), the wheel moves the
/// selection: down to the next entry, wrapping to the first after the last, and up
/// to the previous one, wrapping to the last; nothing else changes.
pub proof fn lemma_wheel_moves_history_selection(
    a: App,
    b: App,
    mouse: MouseEvent,
    list_rows: u16,
    r: AppAction,
)
    requires
        a.help_modal is None,
        a.history_modal is Some,
        a.history@.len() > 0,
        mouse.kind == MouseEventKind::ScrollDown || mouse.kind == MouseEventKind::ScrollUp,
        mouse_effect(a, b, mouse, list_rows, r),
    ensures
        ({
            let h = a.history_modal->Some_0;
            let n = a.history@.len();
            &&& b.history_modal is Some
            &&& b.history_modal->Some_0.scroll_offset == h.scroll_offset
            &&& mouse.kind == MouseEventKind::ScrollDown ==> b.history_modal->Some_0.selected == if h.selected + 1 < n {
                h.selected + 1
            } else {
                0
            }
            &&& mouse.kind == MouseEventKind::ScrollUp ==> b.history_modal->Some_0.selected == if h.selected > 0 {
                h.selected - 1
            } else {
                n - 1
            }
            &&& b == (App { history_modal: b.history_modal, ..a })
        }),
        r is Nothing,
{
    assert(a.history.len() == a.history@.len());
}

/// On the main screen with the history inspector open, the wheel does what the
/// arrow keys do: scrolling down as the Down arrow, scrolling up as the Up arrow.
pub proof fn lemma_wheel_matches_arrow_keys(
    a: App,
    b: App,
    c: App,
    mouse: MouseEvent,
    key: KeyEvent,
    list_rows: u16,
    r: AppAction,
    rk: AppAction,
)
    requires
        a.current_screen == CurrentScreen::Main,
        a.help_modal is None,
        a.history_modal is Some,
        key.kind == KeyEventKind::Press,
        (mouse.kind == MouseEventKind::ScrollDown && key.code == KeyCode::Down) || (mouse.kind
            == MouseEventKind::ScrollUp && key.code == KeyCode::Up),
        mouse_effect(a, b, mouse, list_rows, r),
        key_effect(a, c, spec_key_command(a, key), rk),
    ensures
        b == c,
{
}

/// Whether the state shows the main screen with no modal open.
pub open spec fn bare_main_screen(a: App) -> bool {
    &&& a.current_screen == CurrentScreen::Main
    &&& a.help_modal is None
    &&& a.history_modal is None
    &&& a.path_modal is None
    &&& a.detail_modal is None
}

/// In Normal mode on the main screen, Down and `j` select the next download
/// (wrapping to the first after the last) and Up and `k` the previous one
/// (wrapping to the last before the first), in both key schemes; nothing else
/// changes.
pub proof fn lemma_normal_mode_moves_selection(a: App, b: App, key: KeyEvent, r: AppAction)
    requires
        key.kind == KeyEventKind::Press,
        bare_main_screen(a),
        a.input_mode == InputMode::Normal,
        a.downloads@.len() > 0,
        key_effect(a, b, spec_key_command(a, key), r),
    ensures
        (key.code == KeyCode::Down || key.code == KeyCode::Char('j')) ==> b == (App {
            selected_download: if a.selected_download + 1 < a.downloads@.len() {
                (a.selected_download + 1) as usize
            } else {
                0
            },
            ..a
        }),
        (key.code == KeyCode::Up || key.code == KeyCode::Char('k')) ==> b == (App {
            selected_download: if a.selected_download > 0 {
                (a.selected_download - 1) as usize
            } else {
                (a.downloads@.len() - 1) as usize
            },
            ..a
        }),
{
    assert(a.downloads.len() == a.downloads@.len());
}

/// While the URL is being edited, Left and Right move the cursor one character
/// (not past either end), Home moves it to the start and End to the end of the
/// text; the text and everything else stay as they are.
pub proof fn lemma_url_input_cursor_keys(a: App, b: App, key: KeyEvent, r: AppAction)
    requires
        key.kind == KeyEventKind::Press,
        bare_main_screen(a),
        a.input_mode == InputMode::Editing,
        a.cursor_position <= a.input_buffer@.len(),
        key_effect(a, b, spec_key_command(a, key), r),
    ensures
        key.code == KeyCode::Left ==> b == (App {
            cursor_position: if a.cursor_position > 0 {
                (a.cursor_position - 1) as usize
            } else {
                0
            },
            ..a
        }),
        key.code == KeyCode::Right ==> b == (App {
            cursor_position: if a.cursor_position < a.input_buffer@.len() {
                (a.cursor_position + 1) as usize
            } else {
                a.cursor_position
            },
            ..a
        }),
        key.code == KeyCode::Home ==> b == (App { cursor_position: 0, ..a }),
        key.code == KeyCode::End ==> b == (App {
            cursor_position: a.input_buffer@.len() as usize,
            ..a
        }),
{
}

/// In Normal mode of the Vim scheme, `x` deletes the character under the cursor,
/// `0` moves the cursor to the start and `$` to the end, `i` starts editing at the
/// cursor and `a` one character after it.
pub proof fn lemma_vim_normal_keys(a: App, b: App, key: KeyEvent, r: AppAction)
    requires
        key.kind == KeyEventKind::Press,
        bare_main_screen(a),
        a.input_mode == InputMode::Normal,
        a.input_scheme == InputScheme::Vim,
        a.cursor_position < a.input_buffer@.len(),
        key_effect(a, b, spec_key_command(a, key), r),
    ensures
        key.code == KeyCode::Char('x') ==> {
            &&& b.input_buffer@ == a.input_buffer@.remove(a.cursor_position as int)
            &&& b.input_buffer@.len() + 1 == a.input_buffer@.len()
            &&& b.cursor_position == a.cursor_position
        },
        key.code == KeyCode::Char('0') ==> b == (App { cursor_position: 0, ..a }),
        key.code == KeyCode::Char('$') ==> b == (App {
            cursor_position: a.input_buffer@.len() as usize,
            ..a
        }),
        key.code == KeyCode::Char('i') ==> b == (App { input_mode: InputMode::Editing, ..a }),
        key.code == KeyCode::Char('a') ==> b == (App {
            input_mode: InputMode::Editing,
            cursor_position: (a.cursor_position + 1) as usize,
            ..a
        }),
{
}

/// In Normal mode of the standard scheme, `i` and Enter start editing with the
/// cursor at the end of the URL.
pub proof fn lemma_standard_normal_starts_editing_at_end(a: App, b: App, key: KeyEvent, r: AppAction)
    requires
        key.kind == KeyEventKind::Press,
        bare_main_screen(a),
        a.input_mode == InputMode::Normal,
        a.input_scheme == InputScheme::StandardModal,
        key.code == KeyCode::Char('i') || key.code == KeyCode::Enter,
        key_effect(a, b, spec_key_command(a, key), r),
    ensures
        b == (App {
            input_mode: InputMode::Editing,
            cursor_position: a.input_buffer@.len() as usize,
            ..a
        }),
{
}

/// In the history inspector, Down and `j` select the next entry (wrapping to the
/// first), Up and `k` the previous one (wrapping to the last), Home the first and
/// End the last; nothing else changes.
pub proof fn lemma_history_navigation_keys(a: App, b: App, key: KeyEvent, r: AppAction)
    requires
        key.kind == KeyEventKind::Press,
        a.current_screen == CurrentScreen::Main,
        a.help_modal is None,
        a.history_modal is Some,
        a.history@.len() > 0,
        key_effect(a, b, spec_key_command(a, key), r),
    ensures
        ({
            let h = a.history_modal->Some_0;
            let n = a.history@.len();
            let moved = |sel: int| b == (App {
                history_modal: Some(HistoryModal { selected: sel as usize, ..h }),
                ..a
            });
            &&& (key.code == KeyCode::Down || key.code == KeyCode::Char('j')) ==> moved(
                if h.selected + 1 < n {
                    h.selected + 1
                } else {
                    0
                },
            )
            &&& (key.code == KeyCode::Up || key.code == KeyCode::Char('k')) ==> moved(
                if h.selected > 0 {
                    h.selected - 1
                } else {
                    n - 1
                },
            )
            &&& key.code == KeyCode::Home ==> moved(0)
            &&& key.code == KeyCode::End ==> moved(n - 1)
        }),
{
    assert(a.history.len() == a.history@.len());
}

/// In the help guide, Down and `j` scroll one line down (up to its last line), Up
/// and `k` one line up (down to the first), and Home back to the top.
pub proof fn lemma_help_scroll_keys(a: App, b: App, key: KeyEvent, r: AppAction)
    requires
        key.kind == KeyEventKind::Press,
        a.help_modal is Some,
        key_effect(a, b, spec_key_command(a, key), r),
    ensures
        ({
            let o = a.help_modal->Some_0.scroll_offset;
            &&& (key.code == KeyCode::Down || key.code == KeyCode::Char('j')) ==> b == (App {
                help_modal: Some(
                    HelpModal {
                        scroll_offset: if o + 1 < HELP_LINES {
                            (o + 1) as usize
                        } else {
                            o
                        },
                    },
                ),
                ..a
            })
            &&& (key.code == KeyCode::Up || key.code == KeyCode::Char('k')) ==> b == (App {
                help_modal: Some(
                    HelpModal {
                        scroll_offset: if o > 0 {
                            (o - 1) as usize
                        } else {
                            0
                        },
                    },
                ),
                ..a
            })
            &&& key.code == KeyCode::Home ==> b == (App {
                help_modal: Some(HelpModal { scroll_offset: 0 }),
                ..a
            })
            &&& (key.code == KeyCode::Esc || key.code == KeyCode::Char('q')) ==> b.help_modal is None
        }),
{
}

/// In the download directory editor, Left and Right move the cursor one character
/// (not past either end), Home and End to either end, Delete removes the character
/// under the cursor and Backspace the one before it.
pub proof fn lemma_path_editor_keys(a: App, b: App, key: KeyEvent, r: AppAction)
    requires
        key.kind == KeyEventKind::Press,
        !key.modifiers.control,
        !key.modifiers.shift,
        a.current_screen == CurrentScreen::Main,
        a.help_modal is None,
        a.history_modal is None,
        a.path_modal is Some,
        a.path_modal->Some_0.cursor_position <= a.path_modal->Some_0.input@.len(),
        key_effect(a, b, spec_key_command(a, key), r),
    ensures
        ({
            let m = a.path_modal->Some_0;
            let c = m.cursor_position;
            let n = m.input@.len();
            let now = |cursor: int, text: Seq<char>| {
                &&& b == (App { path_modal: b.path_modal, ..a })
                &&& b.path_modal is Some
                &&& b.path_modal->Some_0.cursor_position == cursor
                &&& b.path_modal->Some_0.input@ == text
                &&& b.path_modal->Some_0.scroll_offset == m.scroll_offset
            };
            &&& key.code == KeyCode::Left ==> now(
                if c > 0 {
                    c - 1
                } else {
                    0
                },
                m.input@,
            )
            &&& key.code == KeyCode::Right ==> now(
                if c < n {
                    c + 1
                } else {
                    c as int
                },
                m.input@,
            )
            &&& key.code == KeyCode::Home ==> now(0, m.input@)
            &&& key.code == KeyCode::End ==> now(n as int, m.input@)
            &&& (key.code == KeyCode::Delete && c < n) ==> now(c as int, m.input@.remove(c as int))
            &&& (key.code == KeyCode::Backspace && c > 0) ==> now(c - 1, m.input@.remove(c - 1))
        }),
{
}

/// On the main screen with no modal open, the wheel moves the download selection:
/// down to the next download (wrapping to the first), up to the previous one
/// (wrapping to the last).
pub proof fn lemma_wheel_moves_download_selection(
    a: App,
    b: App,
    mouse: MouseEvent,
    list_rows: u16,
    r: AppAction,
)
    requires
        bare_main_screen(a),
        a.downloads@.len() > 0,
        mouse_effect(a, b, mouse, list_rows, r),
    ensures
        mouse.kind == MouseEventKind::ScrollDown ==> b == (App {
            selected_download: if a.selected_download + 1 < a.downloads@.len() {
                (a.selected_download + 1) as usize
            } else {
                0
            },
            ..a
        }),
        mouse.kind == MouseEventKind::ScrollUp ==> b == (App {
            selected_download: if a.selected_download > 0 {
                (a.selected_download - 1) as usize
            } else {
                (a.downloads@.len() - 1) as usize
            },
            ..a
        }),
{
    assert(a.downloads.len() == a.downloads@.len());
}

/// In the log viewer, the wheel scrolls the log: down one line (up to the last),
/// up one line (down to the first).
pub proof fn lemma_wheel_scrolls_log(a: App, b: App, mouse: MouseEvent, list_rows: u16, r: AppAction)
    requires
        a.help_modal is None,
        a.history_modal is None,
        a.detail_modal is Some,
        mouse_effect(a, b, mouse, list_rows, r),
    ensures
        ({
            let m = a.detail_modal->Some_0;
            &&& mouse.kind == MouseEventKind::ScrollDown ==> b.detail_modal is Some
                && b.detail_modal->Some_0.scroll_offset == (if m.scroll_offset + 1 < m.logs@.len() {
                m.scroll_offset + 1
            } else {
                m.scroll_offset as int
            })
            &&& mouse.kind == MouseEventKind::ScrollUp ==> b.detail_modal is Some
                && b.detail_modal->Some_0.scroll_offset == (if m.scroll_offset > 0 {
                m.scroll_offset - 1
            } else {
                0
            })
        }),
{
    assert(a.detail_modal->Some_0.logs.len() == a.detail_modal->Some_0.logs@.len());
}

/// On the setup screen, Enter once setup is complete opens the main screen; after
/// an error, `r` retries (failed tools go back to pending, setup downloads again
/// and the worker is to be restarted) and `c` continues to the main screen; `q`
/// quits.
pub proof fn lemma_setup_screen_keys(a: App, b: App, key: KeyEvent, r: AppAction)
    requires
        key.kind == KeyEventKind::Press,
        !key.modifiers.control,
        a.current_screen == CurrentScreen::Setup,
        a.help_modal is None,
        a.setup_state is Some,
        key_effect(a, b, spec_key_command(a, key), r),
    ensures
        (a.setup_state->Some_0.phase == SetupPhase::Complete && key.code == KeyCode::Enter)
            ==> b.current_screen == CurrentScreen::Main && b.setup_state == a.setup_state,
        (a.setup_state->Some_0.phase is Error && key.code == KeyCode::Char('c'))
            ==> b.current_screen == CurrentScreen::Main,
        (a.setup_state->Some_0.phase is Error && key.code == KeyCode::Char('r')) ==> {
            &&& b.current_screen == CurrentScreen::Setup
            &&& b.needs_setup_retry
            &&& b.setup_state is Some
            &&& b.setup_state->Some_0.phase == SetupPhase::Downloading
            &&& b.setup_state->Some_0.tools@.len() == a.setup_state->Some_0.tools@.len()
            &&& forall|k: int|
                0 <= k < a.setup_state->Some_0.tools@.len() ==> (#[trigger] b.setup_state->Some_0.tools@[k]).status
                    == if a.setup_state->Some_0.tools@[k].status is Failed {
                    crate::deps::ToolSetupStatus::PendingDownload
                } else {
                    a.setup_state->Some_0.tools@[k].status
                }
        },
        key.code == KeyCode::Char('q') ==> b.should_quit,
{
}

/// Pasting on the main screen with no modal open puts the sanitized text into the
/// URL input at the cursor, moves the cursor past it and switches to editing;
/// pasting with the directory editor open puts it into the path at its cursor;
/// a paste that sanitizes to nothing changes nothing.
pub proof fn lemma_paste_inserts_sanitized_text(a: App, b: App, text: Seq<char>)
    requires
        paste_effect(a, b, text),
    ensures
        ({
            let clean = spec_sanitize_clipboard_text(text);
            &&& (bare_main_screen(a) && a.cursor_position <= a.input_buffer@.len() && clean.len()
                > 0) ==> {
                &&& b.input_buffer@ == a.input_buffer@.subrange(0, a.cursor_position as int)
                    + clean + a.input_buffer@.subrange(
                    a.cursor_position as int,
                    a.input_buffer@.len() as int,
                )
                &&& b.cursor_position == a.cursor_position + clean.len()
                &&& b.input_mode == InputMode::Editing
                &&& b.downloads == a.downloads
            }
            &&& (a.path_modal is Some && a.path_modal->Some_0.cursor_position
                <= a.path_modal->Some_0.input@.len()) ==> {
                let m = a.path_modal->Some_0;
                &&& b.path_modal is Some
                &&& b.path_modal->Some_0.input@ == m.input@.subrange(0, m.cursor_position as int)
                    + clean + m.input@.subrange(m.cursor_position as int, m.input@.len() as int)
                &&& b.path_modal->Some_0.cursor_position == m.cursor_position + clean.len()
                &&& b.input_buffer == a.input_buffer
            }
            &&& clean.len() == 0 && a.path_modal is None ==> b == a
        }),
{
}

/// A right click asks for the clipboard to be pasted unless the help guide, the
/// history inspector or the log viewer is open; it changes nothing by itself.
pub proof fn lemma_right_click_pastes(a: App, b: App, mouse: MouseEvent, list_rows: u16, r: AppAction)
    requires
        mouse.kind == MouseEventKind::Down(MouseButton::Right),
        mouse_effect(a, b, mouse, list_rows, r),
    ensures
        b == a,
        (a.help_modal is None && a.history_modal is None && a.detail_modal is None) <==> r is PasteClipboard,
{
}

/// A left click in the URL input (rows 3 to 5) on the main screen with no modal
/// open starts editing with the cursor under the clicked column (one column of
/// border to its left), at the end of the text when the click lies past it.
pub proof fn lemma_click_in_input_places_cursor(
    a: App,
    b: App,
    mouse: MouseEvent,
    list_rows: u16,
    r: AppAction,
)
    requires
        mouse.kind == MouseEventKind::Down(MouseButton::Left),
        bare_main_screen(a),
        3 <= mouse.row <= 5,
        mouse_effect(a, b, mouse, list_rows, r),
    ensures
        b.input_mode == InputMode::Editing,
        b.cursor_position == if mouse.column >= 1 && mouse.column - 1 <= a.input_buffer@.len() {
            (mouse.column - 1) as int
        } else if mouse.column == 0 {
            0
        } else {
            a.input_buffer@.len() as int
        },
        b.input_buffer == a.input_buffer,
        b.downloads == a.downloads,
{
}

/// A left click on a download in the list selects the download drawn there: the
/// list shows `list_rows / 3` downloads (at least one), three rows each from row 7,
/// starting so that the selected one is in view; clicking the selected download
/// again opens its log viewer.
pub proof fn lemma_click_selects_download_in_view(
    a: App,
    b: App,
    mouse: MouseEvent,
    list_rows: u16,
    r: AppAction,
    slot: int,
)
    requires
        mouse.kind == MouseEventKind::Down(MouseButton::Left),
        bare_main_screen(a),
        a.selected_download < a.downloads@.len(),
        0 <= slot,
        7 + 3 * slot <= mouse.row < 7 + 3 * slot + 3,
        mouse.row < 7 + list_rows,
        mouse_effect(a, b, mouse, list_rows, r),
    ensures
        ({
            let visible = if list_rows / 3 < 1 {
                1
            } else {
                list_rows / 3
            };
            let start = if a.selected_download >= visible {
                a.selected_download + 1 - visible
            } else {
                0
            };
            let index = start + slot;
            &&& (slot < visible && index < a.downloads@.len() && index != a.selected_download) ==> b == (App {
                selected_download: index as usize,
                input_mode: InputMode::Normal,
                ..a
            })
            &&& (slot < visible && index == a.selected_download) ==> b.detail_modal is Some
                && b.selected_download == a.selected_download
            &&& (slot >= visible || index >= a.downloads@.len()) ==> b == a
        }),
{
    assert(a.downloads.len() == a.downloads@.len());
    let row = mouse.row as int;
    assert(slot == (row - 7) / 3) by (nonlinear_arith)
        requires
            7 + 3 * slot <= row < 7 + 3 * slot + 3,
    ;
    assert(row - LIST_FIRST_ROW == row - 7);
    let visible = if list_rows / 3 < 1 {
        1
    } else {
        list_rows / 3
    };
    let (start, end) = crate::ui::spec_list_window(
        a.selected_download,
        a.downloads@.len() as usize,
        list_rows,
    );
    assert(visible == if list_rows / 3 < 1 { 1 } else { list_rows / 3 });
    assert(start == if a.selected_download >= visible { a.selected_download + 1 - visible } else { 0 });
    assert(end == if start + visible < a.downloads@.len() { start + visible } else { a.downloads@.len() as int });
    assert(ITEM_ROWS as int == 3);
    assert(LIST_FIRST_ROW as int == 7);
    assert((mouse.row - LIST_FIRST_ROW) / (ITEM_ROWS as int) == slot);
    assert(LIST_FIRST_ROW <= mouse.row);
    assert(mouse.row < LIST_FIRST_ROW + list_rows);
    if slot < visible && start + slot < a.downloads@.len() {
        assert(clicked_download(a, mouse.row, list_rows) == Some(start + slot));
    } else {
        assert(clicked_download(a, mouse.row, list_rows) is None);
    }
}

/// In Normal mode on the main screen: `q` quits, F2 switches the key scheme, `p`
/// opens the directory editor on the current directory, `g` opens the history
/// inspector on its first entry, `?` opens the help guide at its top, and `e` opens
/// the log viewer of the selected download.
pub proof fn lemma_normal_mode_commands(a: App, b: App, key: KeyEvent, r: AppAction)
    requires
        key.kind == KeyEventKind::Press,
        !key.modifiers.control,
        bare_main_screen(a),
        a.input_mode == InputMode::Normal,
        key_effect(a, b, spec_key_command(a, key), r),
    ensures
        key.code == KeyCode::Char('q') ==> b.should_quit,
        key.code == KeyCode::F(2) ==> b.input_scheme != a.input_scheme && b.downloads == a.downloads,
        key.code == KeyCode::Char('p') ==> b.path_modal is Some && b.path_modal->Some_0.input@
            == a.output_dir@ && b.path_modal->Some_0.cursor_position == a.output_dir@.len(),
        key.code == KeyCode::Char('g') ==> b.history_modal == Some(
            HistoryModal { selected: 0, scroll_offset: 0 },
        ),
        key.code == KeyCode::Char('?') ==> b.help_modal == Some(HelpModal { scroll_offset: 0 }),
        (key.code == KeyCode::Char('e') && a.selected_download < a.downloads@.len())
            ==> b.detail_modal is Some,
{
}

/// In the directory editor, Ctrl+U empties the path, Ctrl+D puts back
/// `./downloads`, Enter saves the sanitized path as the download directory and
/// closes the editor, and Esc closes it with the directory unchanged.
pub proof fn lemma_path_editor_commands(a: App, b: App, key: KeyEvent, r: AppAction)
    requires
        key.kind == KeyEventKind::Press,
        a.current_screen == CurrentScreen::Main,
        a.help_modal is None,
        a.history_modal is None,
        a.path_modal is Some,
        key_effect(a, b, spec_key_command(a, key), r),
    ensures
        (key.modifiers.control && key.code == KeyCode::Char('u')) ==> b.path_modal is Some
            && b.path_modal->Some_0.input@.len() == 0 && b.path_modal->Some_0.cursor_position == 0
            && b.output_dir == a.output_dir,
        (key.modifiers.control && key.code == KeyCode::Char('d')) ==> b.path_modal is Some
            && b.path_modal->Some_0.input@ == "./downloads"@ && b.path_modal->Some_0.cursor_position
            == 11,
        (!key.modifiers.control && !key.modifiers.shift && key.code == KeyCode::Enter) ==> {
            &&& b.path_modal is None
            &&& b.output_dir@ == crate::app::spec_sanitize_path(a.path_modal->Some_0.input@)
            &&& r matches AppAction::CreateDirectory { path } && path@ == b.output_dir@
        },
        (!key.modifiers.control && !key.modifiers.shift && key.code == KeyCode::Esc) ==> b.path_modal is None
            && b.output_dir == a.output_dir,
{
    reveal_strlit("./downloads");
}

} // verus!
