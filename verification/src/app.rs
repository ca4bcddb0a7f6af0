//! The application state and every transition of it.
use vstd::prelude::*;
use crate::config::{
    decimal, load_config, load_history_limit, push_decimal, spec_history_limit,
    spec_parse_config_output_dir, DEFAULT_HISTORY_LIMIT,
};
use crate::clipboard::{
    lemma_sanitize_clipboard_text_shorter, sanitize_clipboard_text, spec_sanitize_clipboard_text,
};
use crate::deps::{
    spec_tool_display_name, spec_tool_id, RequiredTool, SetupEvent, ToolLocation, ToolSetupStatus,
    ToolSetupStatusView,
};
use crate::history::{opt_view, prune_history, spec_prune, HistoryEntry, HistoryStatus};
use crate::text::{
    char_count, chars_of, concat_str, extend_str, insert_str_at, is_ws, lemma_strip_idempotent,
    lemma_strip_subrange, owned, remove_char_at, str_eq, string_of, string_of_char,
    string_of_range, trim, trim_range, CharClass,
};

verus! {

/// The directory that downloads go to when none is configured.
pub open spec fn default_dir() -> Seq<char> {
    "./downloads"@
}

/// Represents the active keybinding scheme.
#[derive(Debug, Clone, Copy, PartialEq, Eq, Structural)]
pub enum InputScheme {
    StandardModal,
    Vim,
}

impl InputScheme {
    pub fn name(&self) -> (r: &'static str)
        ensures
            r@ == match self {
                InputScheme::StandardModal => "Modal (Standard)"@,
                InputScheme::Vim => "Vim"@,
            },
    {
        match self {
            InputScheme::StandardModal => "Modal (Standard)",
            InputScheme::Vim => "Vim",
        }
    }

    pub fn short_name(&self) -> (r: &'static str)
        ensures
            r@ == match self {
                InputScheme::StandardModal => "Modal"@,
                InputScheme::Vim => "Vim"@,
            },
    {
        match self {
            InputScheme::StandardModal => "Modal",
            InputScheme::Vim => "Vim",
        }
    }
}

/// Represents the current input mode of the TUI.
#[derive(Debug, Clone, Copy, PartialEq, Eq, Structural)]
pub enum InputMode {
    Normal,
    Editing,
}

/// Status of an individual download item.
#[derive(Debug, Clone, PartialEq)]
pub enum ItemStatus {
    Queued,
    Downloading,
    Merging,
    Completed,
    Failed(String),
}

pub open spec fn spec_item_status_label(s: ItemStatus) -> Seq<char> {
    match s {
        ItemStatus::Queued => "Queued"@,
        ItemStatus::Downloading => "Downloading"@,
        ItemStatus::Merging => "Merging (FFmpeg)"@,
        ItemStatus::Completed => "Completed"@,
        ItemStatus::Failed(err) => "Failed: "@ + err@,
    }
}

impl ItemStatus {
    pub fn label(&self) -> (r: String)
        ensures
            r@ == spec_item_status_label(*self),
    {
        match self {
            ItemStatus::Queued => owned("Queued"),
            ItemStatus::Downloading => owned("Downloading"),
            ItemStatus::Merging => owned("Merging (FFmpeg)"),
            ItemStatus::Completed => owned("Completed"),
            ItemStatus::Failed(err) => concat_str("Failed: ", err.as_str()),
        }
    }
}

/// The mathematical content of an item status.
pub enum ItemStatusView {
    Queued,
    Downloading,
    Merging,
    Completed,
    Failed(Seq<char>),
}

impl View for ItemStatus {
    type V = ItemStatusView;

    open spec fn view(&self) -> ItemStatusView {
        match self {
            ItemStatus::Queued => ItemStatusView::Queued,
            ItemStatus::Downloading => ItemStatusView::Downloading,
            ItemStatus::Merging => ItemStatusView::Merging,
            ItemStatus::Completed => ItemStatusView::Completed,
            ItemStatus::Failed(e) => ItemStatusView::Failed(e@),
        }
    }
}

/// The characters of each string of a vector.
pub open spec fn strings_view(v: Vec<String>) -> Seq<Seq<char>> {
    v@.map_values(|s: String| s@)
}

/// An individual download task in the concurrent manager. `progress` is in
/// hundredths of a percent (`0..=10000`).
#[derive(Debug)]
pub struct DownloadItem {
    pub id: usize,
    pub url: String,
    pub filename: Option<String>,
    pub track: u8,
    pub progress: u32,
    pub status: ItemStatus,
    pub logs: Vec<String>,
    pub output_dir: String,
}

/// The mathematical content of a download item.
pub struct DownloadItemView {
    pub id: usize,
    pub url: Seq<char>,
    pub filename: Option<Seq<char>>,
    pub track: u8,
    pub progress: u32,
    pub status: ItemStatusView,
    pub logs: Seq<Seq<char>>,
    pub output_dir: Seq<char>,
}

impl View for DownloadItem {
    type V = DownloadItemView;

    open spec fn view(&self) -> DownloadItemView {
        DownloadItemView {
            id: self.id,
            url: self.url@,
            filename: opt_view(self.filename),
            track: self.track,
            progress: self.progress,
            status: self.status@,
            logs: strings_view(self.logs),
            output_dir: self.output_dir@,
        }
    }
}

impl DownloadItem {
    pub fn new(id: usize, url: String, output_dir: String) -> (d: Self)
        ensures
            d@ == (DownloadItemView {
                id,
                url: url@,
                filename: None,
                track: 1,
                progress: 0,
                status: ItemStatusView::Queued,
                logs: Seq::empty(),
                output_dir: output_dir@,
            }),
    {
        let d = DownloadItem {
            id,
            url,
            filename: None,
            track: 1,
            progress: 0,
            status: ItemStatus::Queued,
            logs: Vec::new(),
            output_dir,
        };
        assert(strings_view(d.logs) =~= Seq::<Seq<char>>::empty());
        d
    }
}

/// Represents the active high-level screen of the application.
#[derive(Debug, Clone, Copy, PartialEq, Eq, Structural)]
pub enum CurrentScreen {
    Main,
    Setup,
}

/// Whether `s` is wrapped in a pair of matching double or single quotes.
pub open spec fn quoted(s: Seq<char>) -> bool {
    s.len() >= 2 && ((s[0] == '"' && s.last() == '"') || (s[0] == '\'' && s.last() == '\''))
}

/// Repeatedly removes one pair of surrounding quotes and the whitespace inside it.
pub open spec fn unquote_path(s: Seq<char>) -> Seq<char>
    decreases s.len(),
{
    if quoted(s) {
        proof {
            lemma_strip_subrange(s.subrange(1, s.len() - 1), CharClass::Whitespace);
        }
        unquote_path(trim(s.subrange(1, s.len() - 1)))
    } else {
        s
    }
}

/// What `sanitize_path` returns for `input`.
pub open spec fn spec_sanitize_path(input: Seq<char>) -> Seq<char> {
    let t = unquote_path(trim(input));
    if t.len() == 0 {
        default_dir()
    } else {
        t
    }
}

/// Sanitizes a path string:
/// - Strips accidental surrounding single or double quotes
/// - Trims leading and trailing whitespace
/// - Treats paths literally without tilde (~) expansion
/// - Resets empty inputs to "./downloads"
pub fn sanitize_path(input: &str) -> (r: String)
    ensures
        r@ == spec_sanitize_path(input@),
{
    let v = chars_of(input);
    assert(v@.subrange(0, v.len() as int) == v@);
    let (mut a, mut b) = trim_range(&v, 0, v.len());
    while b - a >= 2 && ((v[a] == '"' && v[b - 1] == '"') || (v[a] == '\'' && v[b - 1] == '\''))
        invariant
            a <= b <= v.len(),
            unquote_path(trim(input@)) == unquote_path(v@.subrange(a as int, b as int)),
        decreases b - a,
    {
        let ghost s = v@.subrange(a as int, b as int);
        assert(s.subrange(1, s.len() - 1) == v@.subrange(a + 1, b - 1));
        let (a2, b2) = trim_range(&v, a + 1, b - 1);
        a = a2;
        b = b2;
    }
    if a == b {
        owned("./downloads")
    } else {
        string_of_range(&v, a, b)
    }
}

/// The result of `unquote_path` on a trimmed text is trimmed and unquoted.
proof fn lemma_unquote_path_fixed(s: Seq<char>)
    requires
        trim(s) == s,
    ensures
        trim(unquote_path(s)) == unquote_path(s),
        !quoted(unquote_path(s)),
    decreases s.len(),
{
    if quoted(s) {
        let inner = trim(s.subrange(1, s.len() - 1));
        lemma_strip_subrange(s.subrange(1, s.len() - 1), CharClass::Whitespace);
        lemma_strip_idempotent(s.subrange(1, s.len() - 1), CharClass::Whitespace);
        lemma_unquote_path_fixed(inner);
    }
}

/// Sanitizing a path twice gives what sanitizing it once gives.
pub proof fn lemma_sanitize_path_idempotent(input: Seq<char>)
    ensures
        spec_sanitize_path(spec_sanitize_path(input)) == spec_sanitize_path(input),
{
    lemma_strip_idempotent(input, CharClass::Whitespace);
    lemma_unquote_path_fixed(trim(input));
    let t = unquote_path(trim(input));
    if t.len() == 0 {
        reveal_strlit("./downloads");
        let d = default_dir();
        crate::text::lemma_strip_fixed(d, CharClass::Whitespace);
        assert(!quoted(d));
    } else {
        assert(trim(t) == t);
    }
}

/// The cursor index that editing uses: the stored one, or the end of the text when
/// the stored one lies past it.
pub open spec fn clamped_cursor(cursor: usize, len: nat) -> nat {
    if cursor > len {
        len
    } else {
        cursor as nat
    }
}

/// Information and state for the persistent How to Use / Keybinding Guide modal.
#[derive(Debug, Clone, PartialEq, Eq, Structural)]
pub struct HelpModal {
    pub scroll_offset: usize,
}

impl HelpModal {
    pub fn new() -> (m: Self)
        ensures
            m.scroll_offset == 0,
    {
        HelpModal { scroll_offset: 0 }
    }

    /// Scrolls one line down, staying on the last of `max_lines` lines.
    pub fn scroll_down(&mut self, max_lines: usize)
        ensures
            final(self).scroll_offset == if old(self).scroll_offset + 1 < max_lines {
                old(self).scroll_offset + 1
            } else {
                old(self).scroll_offset as int
            },
    {
        if self.scroll_offset < usize::MAX && self.scroll_offset + 1 < max_lines {
            self.scroll_offset += 1;
        }
    }

    /// Scrolls one line up, stopping at the first line.
    pub fn scroll_up(&mut self)
        ensures
            final(self).scroll_offset == if old(self).scroll_offset > 0 {
                old(self).scroll_offset - 1
            } else {
                0
            },
    {
        if self.scroll_offset > 0 {
            self.scroll_offset -= 1;
        }
    }

    /// Scrolls `delta` lines down, stopping at the last of `max_lines` lines.
    pub fn page_down(&mut self, max_lines: usize, delta: usize)
        ensures
            final(self).scroll_offset == vstd::math::min(
                old(self).scroll_offset + delta,
                if max_lines > 0 {
                    max_lines - 1
                } else {
                    0
                },
            ),
    {
        let last = max_lines.saturating_sub(1);
        let target = self.scroll_offset.saturating_add(delta);
        self.scroll_offset = if target < last {
            target
        } else {
            last
        };
    }

    /// Scrolls `delta` lines up, stopping at the first line.
    pub fn page_up(&mut self, delta: usize)
        ensures
            final(self).scroll_offset == if old(self).scroll_offset >= delta {
                old(self).scroll_offset - delta
            } else {
                0
            },
    {
        self.scroll_offset = self.scroll_offset.saturating_sub(delta);
    }
}

impl Default for HelpModal {
    fn default() -> (m: Self)
        ensures
            m.scroll_offset == 0,
    {
        Self::new()
    }
}

/// Information displayed in the full detail / error modal.
#[derive(Debug, Clone)]
pub struct DetailModal {
    pub title: String,
    pub url: String,
    pub status: String,
    pub output_dir: String,
    pub logs: Vec<String>,
    pub scroll_offset: usize,
}

/// Information and state for the download history inspector modal. The
/// `scroll_offset` is the first entry the list view shows.
#[derive(Debug, Clone, PartialEq, Eq, Structural)]
pub struct HistoryModal {
    pub selected: usize,
    pub scroll_offset: usize,
}

/// The entry after `selected` in a list of `total`, wrapping to the first.
pub open spec fn wrap_next(selected: usize, total: usize) -> usize {
    if total == 0 {
        selected
    } else if selected + 1 < total {
        (selected + 1) as usize
    } else {
        0
    }
}

/// The entry before `selected` in a list of `total`, wrapping to the last.
pub open spec fn wrap_previous(selected: usize, total: usize) -> usize {
    if total == 0 {
        selected
    } else if selected > 0 {
        (selected - 1) as usize
    } else {
        (total - 1) as usize
    }
}

/// The index after `selected`, wrapping around a list of `total` entries.
pub fn next_index(selected: usize, total: usize) -> (r: usize)
    ensures
        r == wrap_next(selected, total),
{
    if total > 0 {
        if selected < total - 1 {
            selected + 1
        } else {
            0
        }
    } else {
        selected
    }
}

/// The index before `selected`, wrapping around a list of `total` entries.
pub fn previous_index(selected: usize, total: usize) -> (r: usize)
    ensures
        r == wrap_previous(selected, total),
{
    if total > 0 {
        if selected > 0 {
            selected - 1
        } else {
            total - 1
        }
    } else {
        selected
    }
}

/// Within a list, moving to the next entry and back to the previous one returns to
/// the entry one started from (and so does the reverse).
pub proof fn lemma_wrap_next_previous(selected: usize, total: usize)
    requires
        selected < total,
    ensures
        wrap_previous(wrap_next(selected, total), total) == selected,
        wrap_next(wrap_previous(selected, total), total) == selected,
{
}

impl HistoryModal {
    pub fn new() -> (m: Self)
        ensures
            m.selected == 0,
            m.scroll_offset == 0,
    {
        HistoryModal { selected: 0, scroll_offset: 0 }
    }

    /// Selects the next of `total` entries, wrapping to the first.
    pub fn next(&mut self, total: usize)
        ensures
            final(self).selected == wrap_next(old(self).selected, total),
            final(self).scroll_offset == old(self).scroll_offset,
    {
        self.selected = next_index(self.selected, total);
    }

    /// Selects the previous of `total` entries, wrapping to the last.
    pub fn previous(&mut self, total: usize)
        ensures
            final(self).selected == wrap_previous(old(self).selected, total),
            final(self).scroll_offset == old(self).scroll_offset,
    {
        self.selected = previous_index(self.selected, total);
    }
}

impl Default for HistoryModal {
    fn default() -> (m: Self)
        ensures
            m.selected == 0,
            m.scroll_offset == 0,
    {
        Self::new()
    }
}

/// Information and input state for the custom download path configuration modal.
/// The cursor counts characters.
#[derive(Debug, Clone, PartialEq, Eq)]
pub struct PathModal {
    pub input: String,
    pub cursor_position: usize,
    pub scroll_offset: usize,
}

/// Whether `n` is what `PathModal::insert_char` makes of the editor `m`.
pub open spec fn path_insert_char_effect(m: PathModal, n: PathModal, c: char) -> bool {
    &&& ({
        let k = clamped_cursor(m.cursor_position, m.input@.len());
        &&& n.input@ == m.input@.insert(k as int, c)
        &&& n.cursor_position == k + 1
        &&& n.scroll_offset == m.scroll_offset
    })
}

/// Whether `n` is what `PathModal::insert_str` makes of the editor `m`.
pub open spec fn path_insert_str_effect(m: PathModal, n: PathModal, text: Seq<char>) -> bool {
    &&& ({
        let k = clamped_cursor(m.cursor_position, m.input@.len());
        &&& n.input@ == m.input@.take(k as int) + text + m.input@.skip(k as int)
        &&& n.cursor_position == k + text.len()
        &&& n.scroll_offset == m.scroll_offset
    })
}

/// Whether `n` is what `PathModal::backspace` makes of the editor `m`.
pub open spec fn path_backspace_effect(m: PathModal, n: PathModal) -> bool {
    &&& ({
        let o = m;
        if 0 < o.cursor_position <= o.input@.len() {
            &&& n.input@ == o.input@.remove(o.cursor_position - 1)
            &&& n.cursor_position == o.cursor_position - 1
        } else {
            &&& n.input@ == o.input@
            &&& n.cursor_position == o.cursor_position
        }
    })
    &&& n.scroll_offset == m.scroll_offset
}

/// Whether `n` is what `PathModal::delete` makes of the editor `m`.
pub open spec fn path_delete_effect(m: PathModal, n: PathModal) -> bool {
    &&& n.input@ == if m.cursor_position < m.input@.len() {
        m.input@.remove(m.cursor_position as int)
    } else {
        m.input@
    }
    &&& n.cursor_position == m.cursor_position
    &&& n.scroll_offset == m.scroll_offset
}

/// Whether `n` is what `PathModal::move_left` makes of the editor `m`.
pub open spec fn path_move_left_effect(m: PathModal, n: PathModal) -> bool {
    &&& n.cursor_position == if m.cursor_position > 0 {
        m.cursor_position - 1
    } else {
        0
    }
    &&& n.input == m.input
    &&& n.scroll_offset == m.scroll_offset
}

/// Whether `n` is what `PathModal::move_right` makes of the editor `m`.
pub open spec fn path_move_right_effect(m: PathModal, n: PathModal) -> bool {
    &&& n.cursor_position == if m.cursor_position < m.input@.len() {
        m.cursor_position + 1
    } else {
        m.cursor_position as int
    }
    &&& n.input == m.input
    &&& n.scroll_offset == m.scroll_offset
}

/// Whether `n` is what `PathModal::move_home` makes of the editor `m`.
pub open spec fn path_move_home_effect(m: PathModal, n: PathModal) -> bool {
    &&& n.cursor_position == 0
    &&& n.input == m.input
    &&& n.scroll_offset == m.scroll_offset
}

/// Whether `n` is what `PathModal::move_end` makes of the editor `m`.
pub open spec fn path_move_end_effect(m: PathModal, n: PathModal) -> bool {
    &&& n.cursor_position == m.input@.len()
    &&& n.input == m.input
    &&& n.scroll_offset == m.scroll_offset
}

/// Whether `n` is what `PathModal::clear` makes of the editor `m`.
pub open spec fn path_clear_effect(m: PathModal, n: PathModal) -> bool {
    &&& n.input@ == Seq::<char>::empty()
    &&& n.cursor_position == 0
    &&& n.scroll_offset == 0
}

/// Whether `n` is what `PathModal::reset_default` makes of the editor `m`.
pub open spec fn path_reset_default_effect(m: PathModal, n: PathModal) -> bool {
    &&& n.input@ == default_dir()
    &&& n.cursor_position == default_dir().len()
    &&& n.scroll_offset == 0
}

impl PathModal {
    pub fn new(current_path: &str) -> (m: Self)
        ensures
            m.input@ == current_path@,
            m.cursor_position == current_path@.len(),
            m.scroll_offset == 0,
    {
        let cursor_position = char_count(current_path);
        PathModal { input: owned(current_path), cursor_position, scroll_offset: 0 }
    }

    /// Inserts `c` at the cursor (moved back to the end of the text first if it lies
    /// past it) and moves the cursor past it.
    pub fn insert_char(&mut self, c: char)
        requires
            old(self).input@.len() < usize::MAX,
        ensures
            path_insert_char_effect(*old(self), *final(self), c),
    {
        let count = char_count(self.input.as_str());
        if self.cursor_position > count {
            self.cursor_position = count;
        }
        let k = self.cursor_position;
        let single = string_of_char(c);
        let next = insert_str_at(self.input.as_str(), k, single.as_str());
        assert(next@ =~= old(self).input@.insert(k as int, c));
        self.input = next;
        self.cursor_position = k + 1;
    }

    /// Inserts the characters of `text` at the cursor (moved back to the end of the
    /// text first if it lies past it) and moves the cursor past them.
    pub fn insert_str(&mut self, text: &str)
        requires
            old(self).input@.len() + text@.len() <= usize::MAX,
        ensures
            path_insert_str_effect(*old(self), *final(self), text@),
    {
        let count = char_count(self.input.as_str());
        if self.cursor_position > count {
            self.cursor_position = count;
        }
        let k = self.cursor_position;
        let added = char_count(text);
        self.input = insert_str_at(self.input.as_str(), k, text);
        self.cursor_position = k + added;
    }

    /// Deletes the character before the cursor, if the cursor lies within the text
    /// and not at its start.
    pub fn backspace(&mut self)
        ensures
            path_backspace_effect(*old(self), *final(self)),
    {
        let count = char_count(self.input.as_str());
        if self.cursor_position > 0 && self.cursor_position <= count {
            let k = self.cursor_position - 1;
            self.input = remove_char_at(self.input.as_str(), k);
            self.cursor_position = k;
        }
    }

    /// Deletes the character under the cursor, if there is one.
    pub fn delete(&mut self)
        ensures
            path_delete_effect(*old(self), *final(self)),
    {
        let count = char_count(self.input.as_str());
        if self.cursor_position < count {
            self.input = remove_char_at(self.input.as_str(), self.cursor_position);
        }
    }

    pub fn move_left(&mut self)
        ensures
            path_move_left_effect(*old(self), *final(self)),
    {
        if self.cursor_position > 0 {
            self.cursor_position -= 1;
        }
    }

    pub fn move_right(&mut self)
        ensures
            path_move_right_effect(*old(self), *final(self)),
    {
        if self.cursor_position < char_count(self.input.as_str()) {
            self.cursor_position += 1;
        }
    }

    pub fn move_home(&mut self)
        ensures
            path_move_home_effect(*old(self), *final(self)),
    {
        self.cursor_position = 0;
    }

    pub fn move_end(&mut self)
        ensures
            path_move_end_effect(*old(self), *final(self)),
    {
        self.cursor_position = char_count(self.input.as_str());
    }

    pub fn clear(&mut self)
        ensures
            path_clear_effect(*old(self), *final(self)),
    {
        self.input = String::new();
        self.cursor_position = 0;
        self.scroll_offset = 0;
    }

    /// Puts the default directory back into the input, with the cursor at its end.
    pub fn reset_default(&mut self)
        ensures
            path_reset_default_effect(*old(self), *final(self)),
    {
        self.input = owned("./downloads");
        self.cursor_position = char_count(self.input.as_str());
        self.scroll_offset = 0;
    }
}

/// Represents the overall progress phase of the initial dependency setup.
#[derive(Debug, Clone, PartialEq)]
pub enum SetupPhase {
    Checking,
    Downloading,
    Complete,
    Error(String),
}

/// Information and status for a required external dependency shown during setup.
#[derive(Debug, Clone)]
pub struct SetupToolItem {
    pub id: &'static str,
    pub display_name: &'static str,
    pub status: ToolSetupStatus,
}

/// State tracking the initial tool setup and onboarding screen.
#[derive(Debug, Clone)]
pub struct SetupState {
    pub phase: SetupPhase,
    pub tools: Vec<SetupToolItem>,
    pub status_message: String,
    pub help_scroll: usize,
}

/// The status a tool starts with on the setup screen, given where it was found.
pub open spec fn initial_tool_status(loc: ToolLocation) -> ToolSetupStatusView {
    match loc {
        ToolLocation::SystemPath(p) => ToolSetupStatusView::Found("Found in PATH ("@ + p@ + ")"@),
        ToolLocation::LocalBin(p) => ToolSetupStatusView::Found(
            "Found in local bin ("@ + p@ + ")"@,
        ),
        ToolLocation::Missing => ToolSetupStatusView::PendingDownload,
    }
}

/// Whether some tool of the list is missing.
pub open spec fn any_missing(tools: Seq<(RequiredTool, ToolLocation)>) -> bool {
    exists|i: int| 0 <= i < tools.len() && tools[i].1 is Missing
}

/// Whether `st` is the setup state for the tools found (or not) at start-up.
pub open spec fn is_initial_setup(st: SetupState, tools: Seq<(RequiredTool, ToolLocation)>) -> bool {
    &&& st.tools@.len() == tools.len()
    &&& forall|i: int|
        #![trigger st.tools@[i]]
        0 <= i < tools.len() ==> {
            &&& st.tools@[i].id@ == spec_tool_id(tools[i].0)
            &&& st.tools@[i].display_name@ == spec_tool_display_name(tools[i].0)
            &&& st.tools@[i].status@ == initial_tool_status(tools[i].1)
        }
    &&& st.phase == if any_missing(tools) {
        SetupPhase::Downloading
    } else {
        SetupPhase::Complete
    }
    &&& st.status_message@ == "Checking dependencies..."@
    &&& st.help_scroll == 0
}

impl SetupState {
    /// The setup state for the tools found (or not) at start-up: downloading when
    /// one of them is missing, complete otherwise.
    pub fn new(tools: Vec<(RequiredTool, ToolLocation)>) -> (st: Self)
        ensures
            is_initial_setup(st, tools@),
    {
        let mut tool_items: Vec<SetupToolItem> = Vec::new();
        let mut has_missing = false;
        let ghost input = tools@;
        let mut i: usize = 0;
        let n = tools.len();
        while i < n
            invariant
                n == tools.len(),
                tools@ == input,
                i <= n,
                tool_items@.len() == i,
                forall|j: int|
                    #![trigger tool_items@[j]]
                    0 <= j < i ==> {
                        &&& tool_items@[j].id@ == spec_tool_id(input[j].0)
                        &&& tool_items@[j].display_name@ == spec_tool_display_name(input[j].0)
                        &&& tool_items@[j].status@ == initial_tool_status(input[j].1)
                    },
                has_missing == exists|j: int| 0 <= j < i && input[j].1 is Missing,
            decreases n - i,
        {
            let tool = tools[i].0;
            let status = match &tools[i].1 {
                ToolLocation::SystemPath(p) => ToolSetupStatus::Found(
                    concat3("Found in PATH (", p.as_str(), ")"),
                ),
                ToolLocation::LocalBin(p) => ToolSetupStatus::Found(
                    concat3("Found in local bin (", p.as_str(), ")"),
                ),
                ToolLocation::Missing => {
                    has_missing = true;
                    ToolSetupStatus::PendingDownload
                },
            };
            tool_items.push(SetupToolItem { id: tool.id(), display_name: tool.display_name(), status });
            i += 1;
        }
        let phase = if has_missing {
            SetupPhase::Downloading
        } else {
            SetupPhase::Complete
        };
        SetupState {
            phase,
            tools: tool_items,
            status_message: owned("Checking dependencies..."),
            help_scroll: 0,
        }
    }
}

/// `a`, `b` and `c` one after another.
pub fn concat3(a: &str, b: &str, c: &str) -> (r: String)
    ensures
        r@ == a@ + b@ + c@,
{
    let mut v = chars_of(a);
    extend_str(&mut v, b);
    extend_str(&mut v, c);
    string_of(&v)
}

/// `prefix`, the decimal form of `n`, then `suffix`.
pub fn numbered(prefix: &str, n: usize, suffix: &str) -> (r: String)
    ensures
        r@ == prefix@ + decimal(n as nat) + suffix@,
{
    let mut v = chars_of(prefix);
    push_decimal(&mut v, n);
    extend_str(&mut v, suffix);
    string_of(&v)
}

/// The single source of truth for application state.
pub struct App {
    /// The current URL text buffer.
    pub input_buffer: String,
    /// Cursor position (character index) within `input_buffer`.
    pub cursor_position: usize,
    /// Active input mode (Normal vs Editing).
    pub input_mode: InputMode,
    /// Active input keybinding scheme (Standard vs Vim).
    pub input_scheme: InputScheme,
    /// List of concurrent and completed downloads.
    pub downloads: Vec<DownloadItem>,
    /// Selected index in the downloads list.
    pub selected_download: usize,
    /// Counter for generating unique download IDs.
    pub next_download_id: usize,
    /// Target download destination directory.
    pub output_dir: String,
    /// Optional popup modal displaying error/log details.
    pub detail_modal: Option<DetailModal>,
    /// Optional popup modal configuring the download directory path.
    pub path_modal: Option<PathModal>,
    /// Optional popup modal displaying download history.
    pub history_modal: Option<HistoryModal>,
    /// Persisted download history list (FIFO ordered, newest at index 0).
    pub history: Vec<HistoryEntry>,
    /// Maximum number of items in history before FIFO pruning (at least 50).
    pub history_limit: usize,
    /// Whether history should be automatically saved to disk when modified.
    pub persist_history: bool,
    /// Optional custom path for the history file.
    pub history_path: Option<String>,
    /// Flag signaling the main loop to terminate.
    pub should_quit: bool,
    /// Global notification message shown in the status bar.
    pub status_message: Option<String>,
    /// Active high-level screen (Main vs Setup).
    pub current_screen: CurrentScreen,
    /// Setup and onboarding state when external dependencies are being checked or installed.
    pub setup_state: Option<SetupState>,
    /// Optional persistent How to Use / Keybinding Guide modal.
    pub help_modal: Option<HelpModal>,
    /// Flag indicating the user requested to retry failed dependency downloads.
    pub needs_setup_retry: bool,
    /// Flag indicating the history changed since it was last written out.
    pub needs_history_save: bool,
}

/// Whether the status bar shows exactly `m`.
pub open spec fn status_is(status: Option<String>, m: Seq<char>) -> bool {
    status matches Some(s) && s@ == m
}

/// The message shown when the application starts.
pub open spec fn ready_message() -> Seq<char> {
    "Ready. Press [i] to enter URL, [p/F3] to set directory, [g/F4] for history, [?/F1] for Help, [F2] for Vim, [q] to quit."@
}

/// The message shown when the setup screen hands over to the main screen.
pub open spec fn setup_done_message() -> Seq<char> {
    "Ready. Press [i] to enter URL, [p/F3] for path, [g/F4] for history, [?/F1] for help, [q] to quit."@
}

/// The other input scheme.
pub open spec fn toggled_scheme(s: InputScheme) -> InputScheme {
    match s {
        InputScheme::StandardModal => InputScheme::Vim,
        InputScheme::Vim => InputScheme::StandardModal,
    }
}

/// Switching the input scheme twice gives the scheme one started with.
pub proof fn lemma_toggle_scheme_involution(s: InputScheme)
    ensures
        toggled_scheme(toggled_scheme(s)) == s,
        toggled_scheme(s) != s,
{
}

/// The scheme's display name.
pub open spec fn scheme_name(s: InputScheme) -> Seq<char> {
    match s {
        InputScheme::StandardModal => "Modal (Standard)"@,
        InputScheme::Vim => "Vim"@,
    }
}

/// Whether `b` is `a` after a download of `url` was queued into `a`'s output
/// directory and selected (the status message aside).
pub open spec fn enqueued(a: App, b: App, url: Seq<char>) -> bool {
    &&& a.next_download_id < usize::MAX
    &&& b.next_download_id == a.next_download_id + 1
    &&& b.downloads@.len() == a.downloads@.len() + 1
    &&& b.downloads@.drop_last() == a.downloads@
    &&& b.downloads@.last()@ == (DownloadItemView {
        id: a.next_download_id,
        url,
        filename: None,
        track: 1,
        progress: 0,
        status: ItemStatusView::Queued,
        logs: Seq::empty(),
        output_dir: a.output_dir@,
    })
    &&& b.selected_download == a.downloads@.len()
    &&& b == (App {
        next_download_id: b.next_download_id,
        downloads: b.downloads,
        selected_download: b.selected_download,
        status_message: b.status_message,
        ..a
    })
}

/// The views of a list of downloads.
pub open spec fn downloads_view(ds: Seq<DownloadItem>) -> Seq<DownloadItemView> {
    ds.map_values(|d: DownloadItem| d@)
}

/// Whether `i` is the first index of a download with the given id.
pub open spec fn is_first_with_id(ds: Seq<DownloadItem>, id: usize, i: int) -> bool {
    &&& 0 <= i < ds.len()
    &&& ds[i].id == id
    &&& forall|j: int| 0 <= j < i ==> ds[j].id != id
}

/// The index of the first download with the given id, if there is one.
pub open spec fn download_index(ds: Seq<DownloadItem>, id: usize) -> Option<int> {
    if exists|i: int| 0 <= i < ds.len() && ds[i].id == id {
        Some(choose|i: int| is_first_with_id(ds, id, i))
    } else {
        None
    }
}

/// The first index found is the only one that is first.
proof fn lemma_first_with_id_unique(ds: Seq<DownloadItem>, id: usize, i: int)
    requires
        is_first_with_id(ds, id, i),
    ensures
        download_index(ds, id) == Some(i),
{
    assert(exists|k: int| 0 <= k < ds.len() && ds[k].id == id);
    assert(exists|k: int| is_first_with_id(ds, id, k));
    let w = choose|k: int| is_first_with_id(ds, id, k);
    if w < i {
        assert(ds[w].id != id);
    } else if i < w {
        assert(ds[i].id != id);
    }
}

/// Whether `b` is what `toggle_input_scheme` makes of the state `a`.
pub open spec fn toggle_input_scheme_effect(a: App, b: App) -> bool {
    &&& b == (App {
        input_scheme: toggled_scheme(a.input_scheme),
        status_message: b.status_message,
        ..a
    })
    &&& status_is(
        b.status_message,
        "Switched keybinding scheme to: "@ + scheme_name(b.input_scheme),
    )
}

/// Whether `b` is what `next_download` makes of the state `a`.
pub open spec fn next_download_effect(a: App, b: App) -> bool {
    &&& b == (App {
        selected_download: wrap_next(a.selected_download, a.downloads@.len() as usize),
        ..a
    })
}

/// Whether `b` is what `previous_download` makes of the state `a`.
pub open spec fn previous_download_effect(a: App, b: App) -> bool {
    &&& b == (App {
        selected_download: wrap_previous(a.selected_download, a.downloads@.len() as usize),
        ..a
    })
}

/// Whether `b` is what `delete_selected_history_entry` makes of the state `a`.
pub open spec fn delete_selected_history_entry_effect(a: App, b: App) -> bool {
    &&& if a.history@.len() == 0 {
        &&& status_is(b.status_message, "No history entry to delete."@)
        &&& b == (App { status_message: b.status_message, ..a })
    } else if history_selection(a.history_modal) < a.history@.len() {
        let sel = history_selection(a.history_modal) as int;
        let remaining = a.history@.remove(sel);
        &&& b.history@ == remaining
        &&& status_is(
            b.status_message,
            "Deleted entry from download history."@,
        )
        &&& b.history_modal == match a.history_modal {
            Some(m) => Some(
                if m.selected >= remaining.len() && remaining.len() > 0 {
                    HistoryModal { selected: (remaining.len() - 1) as usize, ..m }
                } else {
                    m
                },
            ),
            None => None,
        }
        &&& b == (App {
            history: b.history,
            status_message: b.status_message,
            history_modal: b.history_modal,
            needs_history_save: true,
            ..a
        })
    } else {
        b == a
    }
}

/// Whether `b` is what `retry_selected_history` makes of the state `a`, returning `r`.
pub open spec fn retry_selected_history_effect(a: App, b: App, r: Option<(usize, String)>) -> bool {
    &&& match a.history_modal {
        None => r is None && b == a,
        Some(m) => if m.selected < a.history@.len() {
            let url = a.history@[m.selected as int].url@;
            let id = a.next_download_id;
            &&& r matches Some((rid, rurl)) && rid == id && rurl@ == url
            &&& enqueued(App { history_modal: None, ..a }, b, url)
            &&& status_is(
                b.status_message,
                "Retrying download #"@ + decimal(id as nat) + ": "@ + url,
            )
        } else {
            &&& r is None
            &&& status_is(b.status_message, "No history entry to retry."@)
            &&& b == (App {
                status_message: b.status_message,
                ..a
            })
        },
    }
}

/// Whether `b` is what `selected_history_file_path` makes of the state `a`, returning `r`.
pub open spec fn selected_history_file_path_effect(a: App, b: App, r: Option<String>) -> bool {
    &&& if a.history@.len() == 0 {
        &&& r is None
        &&& status_is(b.status_message, "No download history entry selected."@)
        &&& b == (App { status_message: b.status_message, ..a })
    } else {
        match a.history_modal {
            Some(m) => if m.selected < a.history@.len() {
                match a.history@[m.selected as int].file_path {
                    Some(p) => r == Some(p) && b == a,
                    None => {
                        &&& r is None
                        &&& status_is(
                            b.status_message,
                            "No file destination recorded for this history entry."@,
                        )
                        &&& b == (App {
                            status_message: b.status_message,
                            ..a
                        })
                    },
                }
            } else {
                r is None && b == a
            },
            None => r is None && b == a,
        }
    }
}

/// Whether `b` is what `open_history_modal` makes of the state `a`.
pub open spec fn open_history_modal_effect(a: App, b: App) -> bool {
    &&& b == (App {
        detail_modal: None,
        path_modal: None,
        help_modal: None,
        history_modal: Some(HistoryModal { selected: 0, scroll_offset: 0 }),
        ..a
    })
    &&& only_modal(b, false, false, true, false)
}

/// Whether `b` is what `close_history_modal` makes of the state `a`.
pub open spec fn close_history_modal_effect(a: App, b: App) -> bool {
    &&& b == (App { history_modal: None, ..a })
}

/// Whether `b` is what `toggle_history_modal` makes of the state `a`.
pub open spec fn toggle_history_modal_effect(a: App, b: App) -> bool {
    &&& b == if a.history_modal is Some {
        App { history_modal: None, ..a }
    } else {
        App {
            detail_modal: None,
            path_modal: None,
            help_modal: None,
            history_modal: Some(HistoryModal { selected: 0, scroll_offset: 0 }),
            ..a
        }
    }
}

/// Whether `b` is what `modal_scroll_down` makes of the state `a`.
pub open spec fn modal_scroll_down_effect(a: App, b: App) -> bool {
    &&& b == (App { detail_modal: b.detail_modal, ..a })
    &&& match a.detail_modal {
        Some(m) => b.detail_modal matches Some(f) && f == (DetailModal {
            scroll_offset: if m.scroll_offset + 1 < m.logs@.len() {
                (m.scroll_offset + 1) as usize
            } else {
                m.scroll_offset
            },
            ..m
        }),
        None => b.detail_modal is None,
    }
}

/// Whether `b` is what `modal_scroll_up` makes of the state `a`.
pub open spec fn modal_scroll_up_effect(a: App, b: App) -> bool {
    &&& b == (App { detail_modal: b.detail_modal, ..a })
    &&& match a.detail_modal {
        Some(m) => b.detail_modal matches Some(f) && f == (DetailModal {
            scroll_offset: if m.scroll_offset > 0 {
                (m.scroll_offset - 1) as usize
            } else {
                0
            },
            ..m
        }),
        None => b.detail_modal is None,
    }
}

/// Whether `b` is what `open_selected_details` makes of the state `a`.
pub open spec fn open_selected_details_effect(a: App, b: App) -> bool {
    &&& if a.path_modal is Some || a.history_modal is Some
        || a.help_modal is Some {
        b == a
    } else if a.selected_download < a.downloads@.len() {
        let item = a.downloads@[a.selected_download as int];
        &&& b.detail_modal matches Some(d) && {
            &&& d.title@ == "Download #"@ + decimal(item.id as nat) + ": Details & Logs"@
            &&& d.url@ == item.url@
            &&& d.status@ == spec_item_status_label(item.status)
            &&& d.output_dir@ == item.output_dir@
            &&& strings_view(d.logs) == strings_view(item.logs)
            &&& d.scroll_offset == 0
        }
        &&& b == (App { detail_modal: b.detail_modal, ..a })
    } else {
        &&& status_is(b.status_message, "No download selected to inspect."@)
        &&& b == (App { status_message: b.status_message, ..a })
    }
}

/// Whether `b` is what `open_path_modal` makes of the state `a`.
pub open spec fn open_path_modal_effect(a: App, b: App) -> bool {
    &&& b.path_modal matches Some(m) && m.input@ == a.output_dir@
        && m.cursor_position == a.output_dir@.len() && m.scroll_offset == 0
    &&& b == (App {
        detail_modal: None,
        history_modal: None,
        help_modal: None,
        path_modal: b.path_modal,
        ..a
    })
    &&& only_modal(b, false, true, false, false)
}

/// Whether `b` is what `cancel_path_modal` makes of the state `a`.
pub open spec fn cancel_path_modal_effect(a: App, b: App) -> bool {
    &&& b == (App { path_modal: None, ..a })
}

/// Whether `b` is what `toggle_path_modal` makes of the state `a`.
pub open spec fn toggle_path_modal_effect(a: App, b: App) -> bool {
    &&& if a.path_modal is Some {
        b == (App { path_modal: None, ..a })
    } else {
        &&& b.path_modal matches Some(m) && m.input@ == a.output_dir@
            && m.cursor_position == a.output_dir@.len() && m.scroll_offset == 0
        &&& b == (App {
            detail_modal: None,
            history_modal: None,
            help_modal: None,
            path_modal: b.path_modal,
            ..a
        })
    }
}

/// Whether `b` is what `commit_path_modal` makes of the state `a`, returning `r`.
pub open spec fn commit_path_modal_effect(a: App, b: App, r: Option<String>) -> bool {
    &&& match a.path_modal {
        Some(m) => {
            &&& r matches Some(p) && p@ == spec_sanitize_path(m.input@)
            &&& b.output_dir@ == spec_sanitize_path(m.input@)
            &&& b == (App {
                path_modal: None,
                output_dir: b.output_dir,
                ..a
            })
        },
        None => r is None && b == a,
    }
}

/// Whether `b` is what `open_help_modal` makes of the state `a`.
pub open spec fn open_help_modal_effect(a: App, b: App) -> bool {
    &&& b == (App {
        detail_modal: None,
        path_modal: None,
        history_modal: None,
        help_modal: Some(HelpModal { scroll_offset: 0 }),
        ..a
    })
    &&& only_modal(b, false, false, false, true)
}

/// Whether `b` is what `close_help_modal` makes of the state `a`.
pub open spec fn close_help_modal_effect(a: App, b: App) -> bool {
    &&& b == (App { help_modal: None, ..a })
}

/// Whether `b` is what `toggle_help_modal` makes of the state `a`.
pub open spec fn toggle_help_modal_effect(a: App, b: App) -> bool {
    &&& b == if a.help_modal is Some {
        App { help_modal: None, ..a }
    } else {
        App {
            detail_modal: None,
            path_modal: None,
            history_modal: None,
            help_modal: Some(HelpModal { scroll_offset: 0 }),
            ..a
        }
    }
}

/// Whether `b` is what `close_modal` makes of the state `a`.
pub open spec fn close_modal_effect(a: App, b: App) -> bool {
    &&& b == (App {
        detail_modal: None,
        path_modal: None,
        history_modal: None,
        help_modal: None,
        ..a
    })
    &&& only_modal(b, false, false, false, false)
}

/// Whether `b` is what `finish_setup` makes of the state `a`.
pub open spec fn finish_setup_effect(a: App, b: App) -> bool {
    &&& b == (App {
        current_screen: CurrentScreen::Main,
        status_message: b.status_message,
        ..a
    })
    &&& status_is(b.status_message, setup_done_message())
}

/// Whether `b` is what `retry_setup` makes of the state `a`.
pub open spec fn retry_setup_effect(a: App, b: App) -> bool {
    &&& match a.setup_state {
        Some(st) => {
            &&& b.setup_state matches Some(f) && f.phase == SetupPhase::Downloading
                && f.status_message@ == "Retrying dependency downloads..."@ && f.help_scroll
                == st.help_scroll && f.tools@ == retried_tools(st.tools@)
            &&& b == (App {
                setup_state: b.setup_state,
                needs_setup_retry: true,
                ..a
            })
        },
        None => b == a,
    }
}

/// Whether `b` is what `setup_scroll_down` makes of the state `a`.
pub open spec fn setup_scroll_down_effect(a: App, b: App) -> bool {
    &&& match a.setup_state {
        Some(st) => {
            &&& b.setup_state matches Some(f) && f == (SetupState {
                help_scroll: if st.help_scroll < usize::MAX {
                    (st.help_scroll + 1) as usize
                } else {
                    usize::MAX
                },
                ..st
            })
            &&& b == (App { setup_state: b.setup_state, ..a })
        },
        None => b == a,
    }
}

/// Whether `b` is what `setup_scroll_up` makes of the state `a`.
pub open spec fn setup_scroll_up_effect(a: App, b: App) -> bool {
    &&& match a.setup_state {
        Some(st) => {
            &&& b.setup_state matches Some(f) && f == (SetupState {
                help_scroll: if st.help_scroll > 0 {
                    (st.help_scroll - 1) as usize
                } else {
                    0
                },
                ..st
            })
            &&& b == (App { setup_state: b.setup_state, ..a })
        },
        None => b == a,
    }
}

/// Whether `b` is what `submit_input` makes of the state `a`, returning `r`.
pub open spec fn submit_input_effect(a: App, b: App, r: Option<(usize, String)>) -> bool {
    &&& ({
        let clean = spec_sanitize_clipboard_text(a.input_buffer@);
        if clean.len() == 0 {
            r is None && b == a
        } else {
            &&& r matches Some((id, url)) && id == a.next_download_id && url@
                == clean
            &&& b.input_buffer@ == Seq::<char>::empty()
            &&& enqueued(
                App {
                    input_buffer: b.input_buffer,
                    cursor_position: 0,
                    input_mode: InputMode::Normal,
                    ..a
                },
                b,
                clean,
            )
            &&& status_is(
                b.status_message,
                "Started download #"@ + decimal(a.next_download_id as nat) + ": "@
                    + clean,
            )
        }
    })
}

/// Whether `b` is what `paste_text_to_input` makes of the state `a` for the text `text`.
pub open spec fn paste_text_to_input_effect(a: App, b: App, text: Seq<char>) -> bool {
    let clean = spec_sanitize_clipboard_text(text);
    let k = clamped_cursor(a.cursor_position, a.input_buffer@.len());
    if clean.len() == 0 {
        b == a
    } else {
        &&& b.input_buffer@ == a.input_buffer@.take(k as int) + clean + a.input_buffer@.skip(k as int)
        &&& b.cursor_position == k + clean.len()
        &&& status_is(b.status_message, "Pasted from clipboard."@)
        &&& b == (App {
            input_buffer: b.input_buffer,
            cursor_position: b.cursor_position,
            input_mode: InputMode::Editing,
            status_message: b.status_message,
            ..a
        })
    }
}

impl App {
    /// Creates an isolated App instance without disk persistence and with empty history.
    pub fn new_empty() -> (app: Self)
        ensures
            app.input_buffer@ == Seq::<char>::empty(),
            app.cursor_position == 0,
            app.input_mode == InputMode::Normal,
            app.input_scheme == InputScheme::StandardModal,
            app.downloads@ == Seq::<DownloadItem>::empty(),
            app.selected_download == 0,
            app.next_download_id == 1,
            app.output_dir@ == default_dir(),
            app.detail_modal is None,
            app.path_modal is None,
            app.history_modal is None,
            app.history@ == Seq::<HistoryEntry>::empty(),
            app.history_limit == DEFAULT_HISTORY_LIMIT,
            !app.persist_history,
            app.history_path is None,
            !app.should_quit,
            app.status_message is None,
            app.current_screen == CurrentScreen::Main,
            app.setup_state is None,
            app.help_modal is None,
            !app.needs_setup_retry,
            !app.needs_history_save,
    {
        App {
            input_buffer: String::new(),
            cursor_position: 0,
            input_mode: InputMode::Normal,
            input_scheme: InputScheme::StandardModal,
            downloads: Vec::new(),
            selected_download: 0,
            next_download_id: 1,
            output_dir: owned("./downloads"),
            detail_modal: None,
            path_modal: None,
            history_modal: None,
            history: Vec::new(),
            history_limit: DEFAULT_HISTORY_LIMIT,
            persist_history: false,
            history_path: None,
            should_quit: false,
            status_message: None,
            current_screen: CurrentScreen::Main,
            setup_state: None,
            help_modal: None,
            needs_setup_retry: false,
            needs_history_save: false,
        }
    }

    /// Creates an App instance initialized in the Setup screen with explicit setup state.
    pub fn new_with_setup(setup_state: SetupState) -> (app: Self)
        ensures
            app == (App {
                current_screen: CurrentScreen::Setup,
                setup_state: Some(setup_state),
                ..app
            }),
            app.input_buffer@ == Seq::<char>::empty(),
            app.cursor_position == 0,
            app.input_mode == InputMode::Normal,
            app.input_scheme == InputScheme::StandardModal,
            app.downloads@ == Seq::<DownloadItem>::empty(),
            app.selected_download == 0,
            app.next_download_id == 1,
            app.output_dir@ == default_dir(),
            app.detail_modal is None,
            app.path_modal is None,
            app.history_modal is None,
            app.history@ == Seq::<HistoryEntry>::empty(),
            app.history_limit == DEFAULT_HISTORY_LIMIT,
            !app.persist_history,
            app.history_path is None,
            !app.should_quit,
            app.status_message is None,
            app.help_modal is None,
            !app.needs_setup_retry,
            !app.needs_history_save,
    {
        let mut app = Self::new_empty();
        app.current_screen = CurrentScreen::Setup;
        app.setup_state = Some(setup_state);
        app
    }

    /// Toggle between Standard Modal and Vim input schemes.
    pub fn toggle_input_scheme(&mut self)
        ensures
            toggle_input_scheme_effect(*old(self), *final(self)),
    {
        self.input_scheme = match self.input_scheme {
            InputScheme::StandardModal => InputScheme::Vim,
            InputScheme::Vim => InputScheme::StandardModal,
        };
        let name = self.input_scheme.name();
        self.status_message = Some(concat_str("Switched keybinding scheme to: ", name));
    }

    /// Move download list selection down, wrapping to the first.
    pub fn next_download(&mut self)
        ensures
            next_download_effect(*old(self), *final(self)),
    {
        self.selected_download = next_index(self.selected_download, self.downloads.len());
    }

    /// Move download list selection up, wrapping to the last.
    pub fn previous_download(&mut self)
        ensures
            previous_download_effect(*old(self), *final(self)),
    {
        self.selected_download = previous_index(self.selected_download, self.downloads.len());
    }

    /// Enqueue a URL for download into the current output directory, select it, and
    /// return the allocated task ID.
    pub fn enqueue_download(&mut self, url: String) -> (id: usize)
        requires
            old(self).next_download_id < usize::MAX,
        ensures
            id == old(self).next_download_id,
            enqueued(*old(self), *final(self), url@),
            status_is(
                final(self).status_message,
                "Started download #"@ + decimal(id as nat) + ": "@ + url@,
            ),
    {
        let id = self.next_download_id;
        self.next_download_id += 1;
        let message = numbered("Started download #", id, ": ");
        let message = concat_str(message.as_str(), url.as_str());
        let item = DownloadItem::new(id, url, owned(self.output_dir.as_str()));
        self.downloads.push(item);
        self.selected_download = self.downloads.len() - 1;
        self.status_message = Some(message);
        assert(self.downloads@.drop_last() == old(self).downloads@);
        id
    }
}

/// Progress is kept in hundredths of a percent; this is 100%.
pub const FULL_PROGRESS: u32 = 10000;

/// At most this many log lines stay before the next line is appended.
pub const LOG_LIMIT: usize = 200;

/// `percent` brought into `0..=FULL_PROGRESS`.
pub open spec fn clamp_progress(percent: u32) -> u32 {
    if percent > FULL_PROGRESS {
        FULL_PROGRESS
    } else {
        percent
    }
}

/// The log lines after appending `log`: the oldest line goes first when more than
/// `LOG_LIMIT` are kept.
pub open spec fn appended_logs(logs: Seq<Seq<char>>, log: Seq<char>) -> Seq<Seq<char>> {
    if logs.len() > LOG_LIMIT {
        logs.drop_first().push(log)
    } else {
        logs.push(log)
    }
}

/// A log that starts with at most `LOG_LIMIT + 1` lines keeps at most that many.
pub proof fn lemma_appended_logs_bounded(logs: Seq<Seq<char>>, log: Seq<char>)
    requires
        logs.len() <= LOG_LIMIT + 1,
    ensures
        appended_logs(logs, log).len() <= LOG_LIMIT + 1,
        appended_logs(logs, log).last() == log,
{
}

/// Whether `e` records a download with these fields (its timestamp is the clock's).
pub open spec fn records(
    e: HistoryEntry,
    id: usize,
    url: Seq<char>,
    title: Option<Seq<char>>,
    file_path: Option<Seq<char>>,
    status: HistoryStatus,
    error_message: Option<Seq<char>>,
) -> bool {
    &&& e.id == id
    &&& e.url@ == url
    &&& opt_view(e.title) == title
    &&& opt_view(e.file_path) == file_path
    &&& e.status == status
    &&& opt_view(e.error_message) == error_message
}

/// Adding an entry to a history of at most `limit` entries puts it first, keeps
/// the earlier entries after it in their order, and drops the oldest one when the
/// history was full.
pub proof fn lemma_history_fifo<T>(history: Seq<T>, entry: T, limit: usize)
    requires
        limit > 0,
        history.len() <= limit,
    ensures
        ({
            let h = spec_prune(seq![entry] + history, limit);
            &&& h.len() == if history.len() < limit {
                history.len() + 1 as int
            } else {
                limit as int
            }
            &&& h[0] == entry
            &&& forall|i: int| 1 <= i < h.len() ==> h[i] == history[i - 1]
        }),
{
}

impl App {
    /// The index of the first download with the given id.
    pub fn find_download(&self, id: usize) -> (r: Option<usize>)
        ensures
            match r {
                Some(i) => {
                    &&& download_index(self.downloads@, id) == Some(i as int)
                    &&& is_first_with_id(self.downloads@, id, i as int)
                },
                None => download_index(self.downloads@, id) is None,
            },
    {
        let mut i: usize = 0;
        while i < self.downloads.len()
            invariant
                i <= self.downloads@.len(),
                forall|j: int| 0 <= j < i ==> self.downloads@[j].id != id,
            decreases self.downloads@.len() - i,
        {
            if self.downloads[i].id == id {
                proof {
                    lemma_first_with_id_unique(self.downloads@, id, i as int);
                }
                return Some(i);
            }
            i += 1;
        }
        None
    }

    /// Update progress (in hundredths of a percent) for a specific download item.
    pub fn update_progress(&mut self, id: usize, track: u8, percent: u32)
        ensures
            update_progress_effect(*old(self), *final(self), id, track, percent),
    {
        if let Some(i) = self.find_download(id) {
            let p = if percent > FULL_PROGRESS {
                FULL_PROGRESS
            } else {
                percent
            };
            self.downloads[i].status = ItemStatus::Downloading;
            self.downloads[i].track = track;
            self.downloads[i].progress = p;
            assert(downloads_view(self.downloads@) =~= downloads_view(old(self).downloads@).update(
                i as int,
                self.downloads@[i as int]@,
            ));
        }
    }

    /// Update merging status for a specific download item.
    pub fn update_merging(&mut self, id: usize)
        ensures
            update_merging_effect(*old(self), *final(self), id),
    {
        if let Some(i) = self.find_download(id) {
            self.downloads[i].status = ItemStatus::Merging;
            self.downloads[i].progress = FULL_PROGRESS;
            assert(downloads_view(self.downloads@) =~= downloads_view(old(self).downloads@).update(
                i as int,
                self.downloads@[i as int]@,
            ));
        }
    }

    /// Update filename discovered for a download item.
    pub fn update_filename(&mut self, id: usize, filename: String)
        ensures
            *final(self) == (App { downloads: final(self).downloads, ..*old(self) }),
            downloads_view(final(self).downloads@) == match download_index(
                old(self).downloads@,
                id,
            ) {
                Some(i) => downloads_view(old(self).downloads@).update(
                    i,
                    DownloadItemView { filename: Some(filename@), ..old(self).downloads@[i]@ },
                ),
                None => downloads_view(old(self).downloads@),
            },
    {
        if let Some(i) = self.find_download(id) {
            self.downloads[i].filename = Some(filename);
            assert(downloads_view(self.downloads@) =~= downloads_view(old(self).downloads@).update(
                i as int,
                self.downloads@[i as int]@,
            ));
        }
    }

    /// Append a log or stderr line to an item, dropping its oldest line when more
    /// than `LOG_LIMIT` are kept.
    pub fn append_log(&mut self, id: usize, log: String)
        ensures
            *final(self) == (App { downloads: final(self).downloads, ..*old(self) }),
            downloads_view(final(self).downloads@) == match download_index(
                old(self).downloads@,
                id,
            ) {
                Some(i) => downloads_view(old(self).downloads@).update(
                    i,
                    DownloadItemView {
                        logs: appended_logs(old(self).downloads@[i]@.logs, log@),
                        ..old(self).downloads@[i]@
                    },
                ),
                None => downloads_view(old(self).downloads@),
            },
    {
        if let Some(i) = self.find_download(id) {
            let ghost before = self.downloads@[i as int]@.logs;
            if self.downloads[i].logs.len() > LOG_LIMIT {
                self.downloads[i].logs.remove(0);
            }
            self.downloads[i].logs.push(log);
            assert(self.downloads@[i as int]@.logs =~= appended_logs(before, log@));
            assert(downloads_view(self.downloads@) =~= downloads_view(old(self).downloads@).update(
                i as int,
                self.downloads@[i as int]@,
            ));
        }
    }

    /// Appends a new history entry at index 0 (newest first) and prunes the oldest
    /// ones beyond the limit; the history is then due to be saved.
    pub fn add_history_entry(&mut self, entry: HistoryEntry)
        ensures
            final(self).history@ == spec_prune(seq![entry] + old(self).history@, old(self).history_limit),
            *final(self) == (App {
                history: final(self).history,
                needs_history_save: true,
                ..*old(self)
            }),
    {
        self.history.insert(0, entry);
        assert(self.history@ =~= seq![entry] + old(self).history@);
        prune_history(&mut self.history, self.history_limit);
        self.needs_history_save = true;
    }
}

/// A copy of an optional string.
pub fn clone_opt(o: &Option<String>) -> (r: Option<String>)
    ensures
        r == *o,
{
    match o {
        Some(s) => Some(s.clone()),
        None => None,
    }
}

impl App {
    /// Mark a download as completed successfully, and record it in the history
    /// with `file_path`, where the finished file was found.
    pub fn update_success(&mut self, id: usize, file_path: Option<String>)
        ensures
            update_success_effect(*old(self), *final(self), id, file_path),
    {
        if let Some(i) = self.find_download(id) {
            self.downloads[i].status = ItemStatus::Completed;
            self.downloads[i].progress = FULL_PROGRESS;
            assert(downloads_view(self.downloads@) =~= downloads_view(old(self).downloads@).update(
                i as int,
                self.downloads@[i as int]@,
            ));
            self.status_message = Some(numbered("Download #", id, " completed successfully!"));
            let entry = HistoryEntry::new_completed(
                self.downloads[i].id,
                self.downloads[i].url.clone(),
                clone_opt(&self.downloads[i].filename),
                file_path,
            );
            let ghost e = entry;
            let ghost item = old(self).downloads@[i as int];
            self.add_history_entry(entry);
            assert(records(
                e,
                id,
                item.url@,
                opt_view(item.filename),
                opt_view(file_path),
                HistoryStatus::Completed,
                None,
            ));
        }
    }

    /// Mark a download as failed with error details, and record it in the history
    /// (with `file_path` when the download had discovered its file name).
    pub fn update_error(&mut self, id: usize, error: String, file_path: Option<String>)
        ensures
            update_error_effect(*old(self), *final(self), id, error, file_path),
    {
        if let Some(i) = self.find_download(id) {
            let ghost before = self.downloads@[i as int]@;
            self.downloads[i].status = ItemStatus::Failed(error.clone());
            self.downloads[i].logs.push(concat_str("[ERROR] ", error.as_str()));
            assert(self.downloads@[i as int]@.logs =~= before.logs.push("[ERROR] "@ + error@));
            assert(downloads_view(self.downloads@) =~= downloads_view(old(self).downloads@).update(
                i as int,
                self.downloads@[i as int]@,
            ));
            let message = numbered("Download #", id, " failed: ");
            self.status_message = Some(concat_str(message.as_str(), error.as_str()));
            let recorded_path = if self.downloads[i].filename.is_some() {
                file_path
            } else {
                None
            };
            let entry = HistoryEntry::new_failed(
                self.downloads[i].id,
                self.downloads[i].url.clone(),
                clone_opt(&self.downloads[i].filename),
                recorded_path,
                error,
            );
            self.add_history_entry(entry);
        }
    }

    /// The output directory and discovered file name of a download, which locate
    /// the file it writes.
    pub fn download_location(&self, id: usize) -> (r: Option<(String, Option<String>)>)
        ensures
            match download_index(self.downloads@, id) {
                Some(i) => r matches Some((dir, name)) && dir@ == self.downloads@[i].output_dir@
                    && name == self.downloads@[i].filename,
                None => r is None,
            },
    {
        match self.find_download(id) {
            Some(i) => Some(
                (self.downloads[i].output_dir.clone(), clone_opt(&self.downloads[i].filename)),
            ),
            None => None,
        }
    }
}

/// Whether `b` is what `update_progress` makes of the state `a`.
pub open spec fn update_progress_effect(a: App, b: App, id: usize, track: u8, percent: u32) -> bool {
    &&& b == (App { downloads: b.downloads, ..a })
    &&& downloads_view(b.downloads@) == match download_index(
        a.downloads@,
        id,
    ) {
        Some(i) => downloads_view(a.downloads@).update(
            i,
            DownloadItemView {
                status: ItemStatusView::Downloading,
                track,
                progress: clamp_progress(percent),
                ..a.downloads@[i]@
            },
        ),
        None => downloads_view(a.downloads@),
    }
}

/// Whether `b` is what `update_merging` makes of the state `a`.
pub open spec fn update_merging_effect(a: App, b: App, id: usize) -> bool {
    &&& b == (App { downloads: b.downloads, ..a })
    &&& downloads_view(b.downloads@) == match download_index(
        a.downloads@,
        id,
    ) {
        Some(i) => downloads_view(a.downloads@).update(
            i,
            DownloadItemView {
                status: ItemStatusView::Merging,
                progress: FULL_PROGRESS,
                ..a.downloads@[i]@
            },
        ),
        None => downloads_view(a.downloads@),
    }
}

/// Whether `b` is what `update_success` makes of the state `a`.
pub open spec fn update_success_effect(a: App, b: App, id: usize, file_path: Option<String>) -> bool {
    match download_index(a.downloads@, id) {
        Some(i) => {
            let item = a.downloads@[i];
            &&& downloads_view(b.downloads@) == downloads_view(
                a.downloads@,
            ).update(
                i,
                DownloadItemView {
                    status: ItemStatusView::Completed,
                    progress: FULL_PROGRESS,
                    ..item@
                },
            )
            &&& status_is(
                b.status_message,
                "Download #"@ + decimal(id as nat) + " completed successfully!"@,
            )
            &&& exists|e: HistoryEntry|
                records(
                    e,
                    id,
                    item.url@,
                    opt_view(item.filename),
                    opt_view(file_path),
                    HistoryStatus::Completed,
                    None,
                ) && b.history@ == spec_prune(
                    seq![e] + a.history@,
                    a.history_limit,
                )
            &&& b == (App {
                downloads: b.downloads,
                status_message: b.status_message,
                history: b.history,
                needs_history_save: true,
                ..a
            })
        },
        None => b == a,
    }
}

/// Whether `b` is what `update_error` makes of the state `a`.
pub open spec fn update_error_effect(a: App, b: App, id: usize, error: String, file_path: Option<String>) -> bool {
    match download_index(a.downloads@, id) {
        Some(i) => {
            let item = a.downloads@[i];
            &&& downloads_view(b.downloads@) == downloads_view(
                a.downloads@,
            ).update(
                i,
                DownloadItemView {
                    status: ItemStatusView::Failed(error@),
                    logs: item@.logs.push("[ERROR] "@ + error@),
                    ..item@
                },
            )
            &&& status_is(
                b.status_message,
                "Download #"@ + decimal(id as nat) + " failed: "@ + error@,
            )
            &&& exists|e: HistoryEntry|
                records(
                    e,
                    id,
                    item.url@,
                    opt_view(item.filename),
                    if item.filename is Some {
                        opt_view(file_path)
                    } else {
                        None
                    },
                    HistoryStatus::Failed,
                    Some(error@),
                ) && b.history@ == spec_prune(
                    seq![e] + a.history@,
                    a.history_limit,
                )
            &&& b == (App {
                downloads: b.downloads,
                status_message: b.status_message,
                history: b.history,
                needs_history_save: true,
                ..a
            })
        },
        None => b == a,
    }
}

/// The history entry the delete and retry actions act on: the modal's selection,
/// or the first entry when the modal is closed.
pub open spec fn history_selection(m: Option<HistoryModal>) -> usize {
    match m {
        Some(m) => m.selected,
        None => 0,
    }
}

/// Whether the app shows no modal but the given one.
pub open spec fn only_modal(
    a: App,
    detail: bool,
    path: bool,
    history: bool,
    help: bool,
) -> bool {
    &&& a.detail_modal is Some == detail
    &&& a.path_modal is Some == path
    &&& a.history_modal is Some == history
    &&& a.help_modal is Some == help
}

impl App {
    /// Removes the currently selected history entry, keeping the selection on the
    /// last entry when it pointed past the shortened list.
    pub fn delete_selected_history_entry(&mut self)
        ensures
            delete_selected_history_entry_effect(*old(self), *final(self)),
    {
        if self.history.len() == 0 {
            self.status_message = Some(owned("No history entry to delete."));
            return ;
        }
        let selected = match &self.history_modal {
            Some(m) => m.selected,
            None => 0,
        };
        if selected < self.history.len() {
            self.history.remove(selected);
            self.needs_history_save = true;
            self.status_message = Some(owned("Deleted entry from download history."));
            let len = self.history.len();
            if let Some(m) = &mut self.history_modal {
                if m.selected >= len && len > 0 {
                    m.selected = len - 1;
                }
            }
        }
    }

    /// Re-enqueues the URL from the selected history entry, closes the history modal,
    /// and returns the task ID and URL to spawn the worker.
    pub fn retry_selected_history(&mut self) -> (r: Option<(usize, String)>)
        requires
            old(self).next_download_id < usize::MAX,
        ensures
            retry_selected_history_effect(*old(self), *final(self), r),
    {
        let selected = match &self.history_modal {
            Some(m) => m.selected,
            None => {
                return None;
            },
        };
        if selected >= self.history.len() {
            self.status_message = Some(owned("No history entry to retry."));
            return None;
        }
        let url = self.history[selected].url.clone();
        self.close_history_modal();
        let id = self.enqueue_download(url.clone());
        let message = numbered("Retrying download #", id, ": ");
        self.status_message = Some(concat_str(message.as_str(), url.as_str()));
        Some((id, url))
    }

    /// The file recorded for the selected history entry, which the file explorer is
    /// to show; says in the status bar why there is none where that is known.
    pub fn selected_history_file_path(&mut self) -> (r: Option<String>)
        ensures
            selected_history_file_path_effect(*old(self), *final(self), r),
    {
        if self.history.len() == 0 {
            self.status_message = Some(owned("No download history entry selected."));
            return None;
        }
        let selected = match &self.history_modal {
            Some(m) => m.selected,
            None => {
                return None;
            },
        };
        if selected >= self.history.len() {
            return None;
        }
        match &self.history[selected].file_path {
            Some(p) => Some(p.clone()),
            None => {
                self.status_message = Some(
                    owned("No file destination recorded for this history entry."),
                );
                None
            },
        }
    }

    /// Reports in the status bar whether the file explorer opened `path`.
    pub fn report_file_manager_result(&mut self, path: &str, error: Option<String>)
        ensures
            status_is(
                final(self).status_message,
                match error {
                    None => "Opened file explorer for: "@ + path@,
                    Some(e) => "Failed to open file explorer: "@ + e@,
                },
            ),
            *final(self) == (App { status_message: final(self).status_message, ..*old(self) }),
    {
        match error {
            None => {
                self.status_message = Some(concat_str("Opened file explorer for: ", path));
            },
            Some(e) => {
                self.status_message = Some(concat_str("Failed to open file explorer: ", e.as_str()));
            },
        }
    }

    /// Opens the download history modal, closing every other modal.
    pub fn open_history_modal(&mut self)
        ensures
            open_history_modal_effect(*old(self), *final(self)),
    {
        self.detail_modal = None;
        self.path_modal = None;
        self.help_modal = None;
        self.history_modal = Some(HistoryModal::new());
    }

    /// Closes the download history modal.
    pub fn close_history_modal(&mut self)
        ensures
            close_history_modal_effect(*old(self), *final(self)),
    {
        self.history_modal = None;
    }

    /// Toggles the download history modal open/closed.
    pub fn toggle_history_modal(&mut self)
        ensures
            toggle_history_modal_effect(*old(self), *final(self)),
    {
        if self.history_modal.is_some() {
            self.close_history_modal();
        } else {
            self.open_history_modal();
        }
    }

    /// Scroll down within the detail modal log viewer.
    pub fn modal_scroll_down(&mut self)
        ensures
            modal_scroll_down_effect(*old(self), *final(self)),
    {
        if let Some(m) = &mut self.detail_modal {
            let n = m.logs.len();
            if m.scroll_offset < n && n - m.scroll_offset > 1 {
                m.scroll_offset += 1;
            }
        }
    }

    /// Scroll up within the detail modal log viewer.
    pub fn modal_scroll_up(&mut self)
        ensures
            modal_scroll_up_effect(*old(self), *final(self)),
    {
        if let Some(m) = &mut self.detail_modal {
            if m.scroll_offset > 0 {
                m.scroll_offset -= 1;
            }
        }
    }

    /// Open the detail/log modal for the currently selected item, unless another
    /// modal is open.
    pub fn open_selected_details(&mut self)
        ensures
            open_selected_details_effect(*old(self), *final(self)),
    {
        if self.path_modal.is_some() || self.history_modal.is_some() || self.help_modal.is_some() {
            return ;
        }
        if self.selected_download < self.downloads.len() {
            let item = &self.downloads[self.selected_download];
            let logs = clone_strings(&item.logs);
            let modal = DetailModal {
                title: numbered("Download #", item.id, ": Details & Logs"),
                url: item.url.clone(),
                status: item.status.label(),
                output_dir: item.output_dir.clone(),
                logs,
                scroll_offset: 0,
            };
            self.detail_modal = Some(modal);
        } else {
            self.status_message = Some(owned("No download selected to inspect."));
        }
    }

    /// Opens the download path configuration modal on the current output directory,
    /// closing every other modal.
    pub fn open_path_modal(&mut self)
        ensures
            open_path_modal_effect(*old(self), *final(self)),
    {
        self.detail_modal = None;
        self.history_modal = None;
        self.help_modal = None;
        self.path_modal = Some(PathModal::new(self.output_dir.as_str()));
    }

    /// Cancels path configuration without saving changes.
    pub fn cancel_path_modal(&mut self)
        ensures
            cancel_path_modal_effect(*old(self), *final(self)),
    {
        self.path_modal = None;
    }

    /// Toggles the download path configuration modal.
    pub fn toggle_path_modal(&mut self)
        ensures
            toggle_path_modal_effect(*old(self), *final(self)),
    {
        if self.path_modal.is_some() {
            self.cancel_path_modal();
        } else {
            self.open_path_modal();
        }
    }

    /// Closes the path modal and makes its sanitized input the output directory,
    /// which it returns so that the directory can be created and saved.
    pub fn commit_path_modal(&mut self) -> (r: Option<String>)
        ensures
            commit_path_modal_effect(*old(self), *final(self), r),
    {
        match self.path_modal.take() {
            Some(m) => {
                let clean = sanitize_path(m.input.as_str());
                self.output_dir = clean.clone();
                Some(clean)
            },
            None => None,
        }
    }

    /// Reports in the status bar whether the directory `path` could be created.
    pub fn report_directory_result(&mut self, path: &str, error: Option<String>)
        ensures
            status_is(
                final(self).status_message,
                match error {
                    None => "Download directory set to: "@ + path@,
                    Some(e) => "Warning: Failed to create directory '"@ + path@ + "': "@ + e@,
                },
            ),
            *final(self) == (App { status_message: final(self).status_message, ..*old(self) }),
    {
        match error {
            None => {
                self.status_message = Some(concat_str("Download directory set to: ", path));
            },
            Some(e) => {
                let head = concat3("Warning: Failed to create directory '", path, "': ");
                self.status_message = Some(concat_str(head.as_str(), e.as_str()));
            },
        }
    }

    /// Opens the persistent help guide modal, closing every other modal.
    pub fn open_help_modal(&mut self)
        ensures
            open_help_modal_effect(*old(self), *final(self)),
    {
        self.detail_modal = None;
        self.path_modal = None;
        self.history_modal = None;
        self.help_modal = Some(HelpModal::new());
    }

    /// Closes the persistent help guide modal.
    pub fn close_help_modal(&mut self)
        ensures
            close_help_modal_effect(*old(self), *final(self)),
    {
        self.help_modal = None;
    }

    /// Toggles the persistent help guide modal open/closed.
    pub fn toggle_help_modal(&mut self)
        ensures
            toggle_help_modal_effect(*old(self), *final(self)),
    {
        if self.help_modal.is_some() {
            self.close_help_modal();
        } else {
            self.open_help_modal();
        }
    }

    /// Close any open modal dialog.
    pub fn close_modal(&mut self)
        ensures
            close_modal_effect(*old(self), *final(self)),
    {
        self.detail_modal = None;
        self.path_modal = None;
        self.history_modal = None;
        self.help_modal = None;
    }
}

/// A copy of a list of strings.
pub fn clone_strings(v: &Vec<String>) -> (r: Vec<String>)
    ensures
        r@ == v@,
{
    let mut r: Vec<String> = Vec::new();
    let mut i: usize = 0;
    while i < v.len()
        invariant
            i <= v@.len(),
            r@ == v@.take(i as int),
        decreases v@.len() - i,
    {
        r.push(v[i].clone());
        i += 1;
        assert(r@ =~= v@.take(i as int));
    }
    assert(v@.take(v@.len() as int) =~= v@);
    r
}

/// The setup state with its guide scrolled by `delta` lines down (`down`) or up,
/// staying within `0..=usize::MAX`.
pub open spec fn scrolled_setup(s: Option<SetupState>, delta: usize, down: bool) -> Option<
    SetupState,
> {
    match s {
        Some(st) => Some(
            SetupState {
                help_scroll: if down {
                    if st.help_scroll + delta > usize::MAX {
                        usize::MAX
                    } else {
                        (st.help_scroll + delta) as usize
                    }
                } else if st.help_scroll >= delta {
                    (st.help_scroll - delta) as usize
                } else {
                    0
                },
                ..st
            },
        ),
        None => None,
    }
}

/// Whether `i` is the first index of a setup item for the tool `tool`.
pub open spec fn is_first_tool(tools: Seq<SetupToolItem>, tool: Seq<char>, i: int) -> bool {
    &&& 0 <= i < tools.len()
    &&& tools[i].id@ == tool
    &&& forall|j: int| 0 <= j < i ==> tools[j].id@ != tool
}

/// The index of the first setup item for the tool `tool`, if there is one.
pub open spec fn tool_index(tools: Seq<SetupToolItem>, tool: Seq<char>) -> Option<int> {
    if exists|i: int| 0 <= i < tools.len() && tools[i].id@ == tool {
        Some(choose|i: int| is_first_tool(tools, tool, i))
    } else {
        None
    }
}

proof fn lemma_first_tool_unique(tools: Seq<SetupToolItem>, tool: Seq<char>, i: int)
    requires
        is_first_tool(tools, tool, i),
    ensures
        tool_index(tools, tool) == Some(i),
{
    assert(exists|k: int| is_first_tool(tools, tool, k));
    let w = choose|k: int| is_first_tool(tools, tool, k);
    if w < i {
        assert(tools[w].id@ != tool);
    } else if i < w {
        assert(tools[i].id@ != tool);
    }
}

/// The setup items after the first one for `tool` took the status `status`.
pub open spec fn with_tool_status(
    tools: Seq<SetupToolItem>,
    tool: Seq<char>,
    status: ToolSetupStatus,
) -> Seq<SetupToolItem> {
    match tool_index(tools, tool) {
        Some(i) => tools.update(i, SetupToolItem { status, ..tools[i] }),
        None => tools,
    }
}

/// Whether `b` is what `handle_setup_event` makes of the state `a` for `event`.
pub open spec fn setup_event_effect(a: App, b: App, event: SetupEvent) -> bool {
    match a.setup_state {
        None => b == a,
        Some(st) => {
            &&& b == (App { setup_state: b.setup_state, ..a })
            &&& b.setup_state matches Some(f) && match event {
                SetupEvent::ToolStatus { tool, status } => f == (SetupState {
                    tools: f.tools,
                    ..st
                }) && f.tools@ == with_tool_status(st.tools@, tool@, status),
                SetupEvent::Progress { tool, percent } => f == (SetupState {
                    tools: f.tools,
                    ..st
                }) && f.tools@ == with_tool_status(
                    st.tools@,
                    tool@,
                    ToolSetupStatus::Downloading { percent },
                ),
                SetupEvent::Complete => f == (SetupState {
                    phase: SetupPhase::Complete,
                    status_message: f.status_message,
                    ..st
                })
                    && f.status_message@
                    == "All dependencies installed successfully! Press [Enter] to continue."@,
                SetupEvent::Error { tool, error } => {
                    &&& f.tools@ == with_tool_status(
                        st.tools@,
                        tool@,
                        ToolSetupStatus::Failed(error),
                    )
                    &&& f.phase matches SetupPhase::Error(m) && m@ == "Failed to set up "@
                        + tool@ + ": "@ + error@
                    &&& f.status_message@ == "Setup error on "@ + tool@ + ": "@ + error@
                    &&& f.help_scroll == st.help_scroll
                },
            }
        },
    }
}

/// The setup items after a retry: each failed tool is pending again.
pub open spec fn retried_tools(tools: Seq<SetupToolItem>) -> Seq<SetupToolItem> {
    tools.map_values(
        |t: SetupToolItem|
            if t.status is Failed {
                SetupToolItem { status: ToolSetupStatus::PendingDownload, ..t }
            } else {
                t
            },
    )
}

/// The index of the first setup item for `tool`.
fn find_tool(tools: &Vec<SetupToolItem>, tool: &str) -> (r: Option<usize>)
    ensures
        match r {
            Some(i) => tool_index(tools@, tool@) == Some(i as int) && i < tools@.len(),
            None => tool_index(tools@, tool@) is None,
        },
{
    let mut i: usize = 0;
    while i < tools.len()
        invariant
            i <= tools@.len(),
            forall|j: int| 0 <= j < i ==> tools@[j].id@ != tool@,
        decreases tools@.len() - i,
    {
        if str_eq(tools[i].id, tool) {
            proof {
                lemma_first_tool_unique(tools@, tool@, i as int);
            }
            return Some(i);
        }
        i += 1;
    }
    None
}

/// Gives the first setup item for `tool` the status `status`.
fn set_tool_status(tools: &mut Vec<SetupToolItem>, tool: &str, status: ToolSetupStatus)
    ensures
        final(tools)@ == with_tool_status(old(tools)@, tool@, status),
{
    if let Some(i) = find_tool(tools, tool) {
        tools[i].status = status;
        assert(tools@ =~= with_tool_status(old(tools)@, tool@, status));
    }
}

impl App {
    /// Transitions from the setup/onboarding screen into the main application.
    pub fn finish_setup(&mut self)
        ensures
            finish_setup_effect(*old(self), *final(self)),
    {
        self.current_screen = CurrentScreen::Main;
        self.status_message = Some(
            owned(
                "Ready. Press [i] to enter URL, [p/F3] for path, [g/F4] for history, [?/F1] for help, [q] to quit.",
            ),
        );
    }

    /// Retries the failed dependency downloads on the setup screen: failed tools
    /// become pending again and a retry is requested.
    pub fn retry_setup(&mut self)
        ensures
            retry_setup_effect(*old(self), *final(self)),
    {
        if let Some(mut setup) = self.setup_state.take() {
            let ghost before = setup.tools@;
            let ghost scroll = setup.help_scroll;
            let mut i: usize = 0;
            while i < setup.tools.len()
                invariant
                    i <= setup.tools@.len(),
                    setup.tools@.len() == before.len(),
                    setup.help_scroll == scroll,
                    forall|j: int|
                        0 <= j < i ==> setup.tools@[j] == retried_tools(before)[j],
                    forall|j: int| i <= j < before.len() ==> setup.tools@[j] == before[j],
                decreases setup.tools@.len() - i,
            {
                if matches!(setup.tools[i].status, ToolSetupStatus::Failed(_)) {
                    setup.tools[i].status = ToolSetupStatus::PendingDownload;
                }
                i += 1;
            }
            assert(setup.tools@ =~= retried_tools(before));
            setup.phase = SetupPhase::Downloading;
            setup.status_message = owned("Retrying dependency downloads...");
            self.setup_state = Some(setup);
            self.needs_setup_retry = true;
        }
    }

    /// Takes the setup retry request flag, resetting it to false.
    pub fn take_setup_retry(&mut self) -> (r: bool)
        ensures
            r == old(self).needs_setup_retry,
            *final(self) == (App { needs_setup_retry: false, ..*old(self) }),
    {
        let retry = self.needs_setup_retry;
        self.needs_setup_retry = false;
        retry
    }

    /// Takes the flag that says the history changed and is due to be saved.
    pub fn take_history_save(&mut self) -> (r: bool)
        ensures
            r == old(self).needs_history_save,
            *final(self) == (App { needs_history_save: false, ..*old(self) }),
    {
        let save = self.needs_history_save;
        self.needs_history_save = false;
        save
    }

    /// Scrolls the setup screen guide by `delta` lines down (`down`) or up, staying
    /// within `0..=usize::MAX`.
    pub fn setup_scroll_by(&mut self, delta: usize, down: bool)
        ensures
            *final(self) == (App {
                setup_state: scrolled_setup(old(self).setup_state, delta, down),
                ..*old(self)
            }),
    {
        if let Some(setup) = &mut self.setup_state {
            setup.help_scroll = if down {
                setup.help_scroll.saturating_add(delta)
            } else {
                setup.help_scroll.saturating_sub(delta)
            };
        }
    }

    /// Scrolls down the setup screen guide.
    pub fn setup_scroll_down(&mut self)
        ensures
            setup_scroll_down_effect(*old(self), *final(self)),
    {
        self.setup_scroll_by(1, true);
    }

    /// Scrolls up the setup screen guide.
    pub fn setup_scroll_up(&mut self)
        ensures
            setup_scroll_up_effect(*old(self), *final(self)),
    {
        self.setup_scroll_by(1, false);
    }

    /// Processes a setup event emitted by the background dependency installer.
    pub fn handle_setup_event(&mut self, event: SetupEvent)
        ensures
            setup_event_effect(*old(self), *final(self), event),
    {
        let setup = match &mut self.setup_state {
            Some(s) => s,
            None => {
                return ;
            },
        };
        match event {
            SetupEvent::ToolStatus { tool, status } => {
                set_tool_status(&mut setup.tools, tool, status);
            },
            SetupEvent::Progress { tool, percent } => {
                set_tool_status(&mut setup.tools, tool, ToolSetupStatus::Downloading { percent });
            },
            SetupEvent::Complete => {
                setup.phase = SetupPhase::Complete;
                setup.status_message = owned(
                    "All dependencies installed successfully! Press [Enter] to continue.",
                );
            },
            SetupEvent::Error { tool, error } => {
                set_tool_status(&mut setup.tools, tool, ToolSetupStatus::Failed(error.clone()));
                let head = concat3("Failed to set up ", tool, ": ");
                setup.phase = SetupPhase::Error(concat_str(head.as_str(), error.as_str()));
                let head = concat3("Setup error on ", tool, ": ");
                setup.status_message = concat_str(head.as_str(), error.as_str());
            },
        }
    }

    /// Submits the URL in the input buffer, sanitized as a paste is: queues it,
    /// clears the buffer and returns to Normal mode. Nothing happens when nothing
    /// is left of it.
    pub fn submit_input(&mut self) -> (r: Option<(usize, String)>)
        requires
            old(self).next_download_id < usize::MAX,
        ensures
            submit_input_effect(*old(self), *final(self), r),
    {
        let clean = sanitize_clipboard_text(self.input_buffer.as_str());
        if char_count(clean.as_str()) == 0 {
            return None;
        }
        self.input_buffer = String::new();
        self.cursor_position = 0;
        self.input_mode = InputMode::Normal;
        let id = self.enqueue_download(clean.clone());
        Some((id, clean))
    }

    /// Pastes sanitized text into the URL input at the cursor and switches to
    /// Editing mode; nothing happens when nothing is left of the text.
    pub fn paste_text_to_input(&mut self, text: &str)
        requires
            old(self).input_buffer@.len() + text@.len() <= usize::MAX,
        ensures
            paste_text_to_input_effect(*old(self), *final(self), text@),
    {
        proof {
            lemma_sanitize_clipboard_text_shorter(text@);
        }
        let clean = sanitize_clipboard_text(text);
        let added = char_count(clean.as_str());
        if added == 0 {
            return ;
        }
        let count = char_count(self.input_buffer.as_str());
        let k = if self.cursor_position > count {
            count
        } else {
            self.cursor_position
        };
        self.input_buffer = insert_str_at(self.input_buffer.as_str(), k, clean.as_str());
        self.cursor_position = k + added;
        self.input_mode = InputMode::Editing;
        self.status_message = Some(owned("Pasted from clipboard."));
    }
}

/// The output directory a configuration sets, sanitized; the default without one.
pub open spec fn configured_dir(content: Option<Seq<char>>) -> Seq<char> {
    match content {
        Some(c) => match spec_parse_config_output_dir(c) {
            Some(d) => spec_sanitize_path(d),
            None => default_dir(),
        },
        None => default_dir(),
    }
}

/// The characters of an optional text.
pub open spec fn opt_str_view(o: Option<&str>) -> Option<Seq<char>> {
    match o {
        Some(s) => Some(s@),
        None => None,
    }
}

impl App {
    /// The application state at start-up, given the content of the configuration
    /// file (if there is one), the saved history (`None` where history is not kept,
    /// as under test) and the tools found (`None` where the check is skipped).
    pub fn new(
        config_content: Option<&str>,
        history: Option<Vec<HistoryEntry>>,
        dependencies: Option<Vec<(RequiredTool, ToolLocation)>>,
    ) -> (app: Self)
        ensures
            app.output_dir@ == configured_dir(opt_str_view(config_content)),
            app.history_limit == spec_history_limit(opt_str_view(config_content)),
            match history {
                Some(h) => app.persist_history && app.history@ == spec_prune(
                    h@,
                    app.history_limit,
                ),
                None => !app.persist_history && app.history@ == Seq::<HistoryEntry>::empty(),
            },
            match dependencies {
                Some(tools) => if any_missing(tools@) {
                    &&& app.current_screen == CurrentScreen::Setup
                    &&& app.setup_state matches Some(st) && is_initial_setup(st, tools@)
                } else {
                    app.current_screen == CurrentScreen::Main && app.setup_state is None
                },
                None => app.current_screen == CurrentScreen::Main && app.setup_state is None,
            },
            status_is(app.status_message, ready_message()),
            app.input_buffer@ == Seq::<char>::empty(),
            app.cursor_position == 0,
            app.input_mode == InputMode::Normal,
            app.input_scheme == InputScheme::StandardModal,
            app.downloads@ == Seq::<DownloadItem>::empty(),
            app.selected_download == 0,
            app.next_download_id == 1,
            app.detail_modal is None,
            app.path_modal is None,
            app.history_modal is None,
            app.help_modal is None,
            app.history_path is None,
            !app.should_quit,
            !app.needs_setup_retry,
            !app.needs_history_save,
    {
        let initial_dir = match load_config(config_content) {
            Some(p) => sanitize_path(p.as_str()),
            None => owned("./downloads"),
        };
        let history_limit = load_history_limit(config_content);
        let (persist_history, history) = match history {
            Some(h) => {
                let mut h = h;
                prune_history(&mut h, history_limit);
                (true, h)
            },
            None => (false, Vec::new()),
        };
        let (current_screen, setup_state) = match dependencies {
            Some(tools) => {
                let st = SetupState::new(tools);
                if matches!(st.phase, SetupPhase::Downloading) {
                    (CurrentScreen::Setup, Some(st))
                } else {
                    (CurrentScreen::Main, None)
                }
            },
            None => (CurrentScreen::Main, None),
        };
        App {
            input_buffer: String::new(),
            cursor_position: 0,
            input_mode: InputMode::Normal,
            input_scheme: InputScheme::StandardModal,
            downloads: Vec::new(),
            selected_download: 0,
            next_download_id: 1,
            output_dir: initial_dir,
            detail_modal: None,
            path_modal: None,
            history_modal: None,
            history,
            history_limit,
            persist_history,
            history_path: None,
            should_quit: false,
            status_message: Some(
                owned(
                    "Ready. Press [i] to enter URL, [p/F3] to set directory, [g/F4] for history, [?/F1] for Help, [F2] for Vim, [q] to quit.",
                ),
            ),
            current_screen,
            setup_state,
            help_modal: None,
            needs_setup_retry: false,
            needs_history_save: false,
        }
    }
}

/// Whether every download's id lies below the id the next one gets.
pub open spec fn ids_below_next(a: App) -> bool {
    forall|i: int| 0 <= i < a.downloads@.len() ==> #[trigger] a.downloads@[i].id < a.next_download_id
}

/// Queuing a download keeps every id below the next one, and the new download's id
/// differs from every earlier download's: ids stay unique.
pub proof fn lemma_enqueue_ids_unique(a: App, b: App, url: Seq<char>)
    requires
        ids_below_next(a),
        enqueued(a, b, url),
    ensures
        ids_below_next(b),
        forall|i: int|
            0 <= i < a.downloads@.len() ==> #[trigger] b.downloads@[i].id != b.downloads@.last().id,
{
    assert forall|i: int| 0 <= i < b.downloads@.len() implies #[trigger] b.downloads@[i].id
        < b.next_download_id by {
        if i < a.downloads@.len() {
            assert(b.downloads@[i] == b.downloads@.drop_last()[i]);
        }
    }
    assert forall|i: int| 0 <= i < a.downloads@.len() implies #[trigger] b.downloads@[i].id
        != b.downloads@.last().id by {
        assert(b.downloads@[i] == b.downloads@.drop_last()[i]);
    }
}

/// After a deletion, the history inspector's selection still points at an entry
/// (when one is left), given that it did before.
pub proof fn lemma_delete_keeps_selection_in_range(a: App, b: App)
    requires
        delete_selected_history_entry_effect(a, b),
        a.history_modal matches Some(m) && m.selected < a.history@.len(),
    ensures
        b.history_modal matches Some(m) && (m.selected < b.history@.len() || b.history@.len()
            == 0),
{
}

/// The directory committed in the path editor is the one the editor shows when it
/// is opened again.
pub proof fn lemma_commit_then_reopen(a: App, b: App, c: App, r: Option<String>)
    requires
        a.path_modal is Some,
        commit_path_modal_effect(a, b, r),
        open_path_modal_effect(b, c),
    ensures
        c.path_modal matches Some(m) && m.input@ == spec_sanitize_path(a.path_modal->0.input@),
{
}

/// Opening a modal leaves it the only one open.
pub proof fn lemma_open_modal_exclusive(a: App, b: App, c: App, d: App, e: App)
    requires
        open_help_modal_effect(a, b),
        open_history_modal_effect(a, c),
        open_path_modal_effect(a, d),
        close_modal_effect(a, e),
    ensures
        only_modal(b, false, false, false, true),
        only_modal(c, false, false, true, false),
        only_modal(d, false, true, false, false),
        only_modal(e, false, false, false, false),
{
}

/// A canonical path as shown to the user: on Windows without the `\\?\` prefix
/// that canonicalizing adds.
pub open spec fn spec_display_path(s: Seq<char>, windows: bool) -> Seq<char> {
    if windows && s.len() >= 4 && s.take(4) == "\\\\?\\"@ {
        s.skip(4)
    } else {
        s
    }
}

/// A canonical path as shown to the user.
pub fn display_path(s: String, windows: bool) -> (r: String)
    ensures
        r@ == spec_display_path(s@, windows),
{
    proof {
        reveal_strlit("\\\\?\\");
    }
    if !windows {
        return s;
    }
    let v = chars_of(s.as_str());
    if v.len() >= 4 && v[0] == '\\' && v[1] == '\\' && v[2] == '?' && v[3] == '\\' {
        assert(s@.take(4) =~= "\\\\?\\"@);
        let r = string_of_range(&v, 4, v.len());
        assert(v@.subrange(4, v@.len() as int) == s@.skip(4));
        r
    } else {
        proof {
            if s@.len() >= 4 && s@.take(4) == "\\\\?\\"@ {
                assert(s@.take(4)[0] == '\\');
                assert(s@.take(4)[1] == '\\');
                assert(s@.take(4)[2] == '?');
                assert(s@.take(4)[3] == '\\');
            }
        }
        s
    }
}

/// In the path editor, Backspace takes back the character just typed: the text,
/// the cursor and the scroll offset are as they were.
pub proof fn lemma_path_insert_then_backspace(m: PathModal, n: PathModal, o: PathModal, c: char)
    requires
        m.cursor_position <= m.input@.len(),
        path_insert_char_effect(m, n, c),
        path_backspace_effect(n, o),
    ensures
        o.input@ == m.input@,
        o.cursor_position == m.cursor_position,
        o.scroll_offset == m.scroll_offset,
{
    assert(m.input@.insert(m.cursor_position as int, c).remove(m.cursor_position as int) =~= m.input@);
}

/// In the path editor, Right moves the cursor one character forward while it lies
/// before the end of the text, and stays at the end otherwise; the text is kept.
pub proof fn lemma_path_move_right_advances(m: PathModal, n: PathModal)
    requires
        path_move_right_effect(m, n),
    ensures
        m.cursor_position < m.input@.len() ==> n.cursor_position == m.cursor_position + 1,
        m.cursor_position >= m.input@.len() ==> n.cursor_position == m.cursor_position,
        n.input@ == m.input@,
{
}

/// In the path editor, Left then Right brings the cursor back to where it was,
/// from any position after the first character up to the end of the text.
pub proof fn lemma_path_left_then_right(m: PathModal, n: PathModal, o: PathModal)
    requires
        1 <= m.cursor_position <= m.input@.len(),
        path_move_left_effect(m, n),
        path_move_right_effect(n, o),
    ensures
        o.cursor_position == m.cursor_position,
        o.input@ == m.input@,
{
}

proof fn lemma_updated_download(a: Seq<DownloadItem>, b: Seq<DownloadItem>, i: int, v: DownloadItemView)
    requires
        0 <= i < a.len(),
        downloads_view(b) == downloads_view(a).update(i, v),
    ensures
        b.len() == a.len(),
        b[i]@ == v,
        forall|j: int| 0 <= j < a.len() && j != i ==> #[trigger] b[j]@ == a[j]@,
{
    assert(downloads_view(b).len() == b.len());
    assert forall|j: int| 0 <= j < a.len() && j != i implies #[trigger] b[j]@ == a[j]@ by {
        assert(downloads_view(b)[j] == b[j]@);
        assert(downloads_view(a)[j] == a[j]@);
    }
    assert(downloads_view(b)[i] == b[i]@);
}

/// Progress reported for a download sets that download (the first with the id) to
/// Downloading, with the stream and the percentage, capped at 100% (10000
/// hundredths); its id and URL and every other download stay as they were.
pub proof fn lemma_progress_update_marks_download(
    a: App,
    b: App,
    id: usize,
    track: u8,
    percent: u32,
    i: int,
)
    requires
        update_progress_effect(a, b, id, track, percent),
        is_first_with_id(a.downloads@, id, i),
    ensures
        b.downloads@.len() == a.downloads@.len(),
        b.downloads@[i].status == ItemStatus::Downloading,
        b.downloads@[i].track == track,
        b.downloads@[i].progress == if percent > 10000 {
            10000
        } else {
            percent
        },
        b.downloads@[i].id == id,
        b.downloads@[i].url@ == a.downloads@[i].url@,
        forall|j: int| 0 <= j < a.downloads@.len() && j != i ==> #[trigger] b.downloads@[j]@ == a.downloads@[j]@,
{
    lemma_first_with_id_unique(a.downloads@, id, i);
    lemma_updated_download(
        a.downloads@,
        b.downloads@,
        i,
        DownloadItemView {
            status: ItemStatusView::Downloading,
            track,
            progress: clamp_progress(percent),
            ..a.downloads@[i]@
        },
    );
}

/// When merging starts, the download shows Merging at 100%.
pub proof fn lemma_merging_marks_download(a: App, b: App, id: usize, i: int)
    requires
        update_merging_effect(a, b, id),
        is_first_with_id(a.downloads@, id, i),
    ensures
        b.downloads@[i].status == ItemStatus::Merging,
        b.downloads@[i].progress == 10000,
        b.downloads@[i].id == id,
        forall|j: int| 0 <= j < a.downloads@.len() && j != i ==> #[trigger] b.downloads@[j]@ == a.downloads@[j]@,
{
    lemma_first_with_id_unique(a.downloads@, id, i);
    lemma_updated_download(
        a.downloads@,
        b.downloads@,
        i,
        DownloadItemView { status: ItemStatusView::Merging, progress: FULL_PROGRESS, ..a.downloads@[i]@ },
    );
}

/// A finished download shows Completed at 100%, and a Completed entry for it (its
/// id, URL and the file found) comes first in the history, which is then to be
/// saved.
pub proof fn lemma_success_completes_download(
    a: App,
    b: App,
    id: usize,
    file_path: Option<String>,
    i: int,
)
    requires
        update_success_effect(a, b, id, file_path),
        is_first_with_id(a.downloads@, id, i),
        a.history_limit > 0,
    ensures
        b.downloads@[i].status == ItemStatus::Completed,
        b.downloads@[i].progress == 10000,
        forall|j: int| 0 <= j < a.downloads@.len() && j != i ==> #[trigger] b.downloads@[j]@ == a.downloads@[j]@,
        b.history@.len() > 0,
        b.history@[0].id == id,
        b.history@[0].url@ == a.downloads@[i].url@,
        b.history@[0].status == HistoryStatus::Completed,
        opt_view(b.history@[0].file_path) == opt_view(file_path),
        b.history@[0].error_message is None,
        b.needs_history_save,
{
    lemma_first_with_id_unique(a.downloads@, id, i);
    let item = a.downloads@[i];
    lemma_updated_download(
        a.downloads@,
        b.downloads@,
        i,
        DownloadItemView { status: ItemStatusView::Completed, progress: FULL_PROGRESS, ..item@ },
    );
    let e = choose|e: HistoryEntry|
        records(
            e,
            id,
            item.url@,
            opt_view(item.filename),
            opt_view(file_path),
            HistoryStatus::Completed,
            None,
        ) && b.history@ == spec_prune(seq![e] + a.history@, a.history_limit);
    assert((seq![e] + a.history@)[0] == e);
}

/// A failed download shows Failed with the error, its log ends with the error,
/// and a Failed entry for it with the error comes first in the history, which is
/// then to be saved.
pub proof fn lemma_error_fails_download(
    a: App,
    b: App,
    id: usize,
    error: String,
    file_path: Option<String>,
    i: int,
)
    requires
        update_error_effect(a, b, id, error, file_path),
        is_first_with_id(a.downloads@, id, i),
        a.history_limit > 0,
    ensures
        b.downloads@[i]@.status == ItemStatusView::Failed(error@),
        b.downloads@[i]@.logs.last() == "[ERROR] "@ + error@,
        b.downloads@[i]@.logs.drop_last() == a.downloads@[i]@.logs,
        b.downloads@[i].progress == a.downloads@[i].progress,
        forall|j: int| 0 <= j < a.downloads@.len() && j != i ==> #[trigger] b.downloads@[j]@ == a.downloads@[j]@,
        b.history@.len() > 0,
        b.history@[0].id == id,
        b.history@[0].url@ == a.downloads@[i].url@,
        b.history@[0].status == HistoryStatus::Failed,
        opt_view(b.history@[0].error_message) == Some(error@),
        b.needs_history_save,
{
    lemma_first_with_id_unique(a.downloads@, id, i);
    let item = a.downloads@[i];
    lemma_updated_download(
        a.downloads@,
        b.downloads@,
        i,
        DownloadItemView {
            status: ItemStatusView::Failed(error@),
            logs: item@.logs.push("[ERROR] "@ + error@),
            ..item@
        },
    );
    let e = choose|e: HistoryEntry|
        records(
            e,
            id,
            item.url@,
            opt_view(item.filename),
            if item.filename is Some {
                opt_view(file_path)
            } else {
                None
            },
            HistoryStatus::Failed,
            Some(error@),
        ) && b.history@ == spec_prune(seq![e] + a.history@, a.history_limit);
    assert((seq![e] + a.history@)[0] == e);
}

/// Submitting the URL input starts a download exactly when the sanitized input is
/// not empty: the download gets the next id and the sanitized URL, is queued at 0%
/// at the end of the list and selected, and the input is cleared and left; a blank
/// input changes nothing.
pub proof fn lemma_submit_starts_download(a: App, b: App, r: Option<(usize, String)>)
    requires
        submit_input_effect(a, b, r),
    ensures
        r is None <==> spec_sanitize_clipboard_text(a.input_buffer@).len() == 0,
        r is None ==> b == a,
        r matches Some((id, url)) ==> {
            &&& id == a.next_download_id
            &&& url@ == spec_sanitize_clipboard_text(a.input_buffer@)
            &&& b.next_download_id == id + 1
            &&& b.input_buffer@.len() == 0
            &&& b.cursor_position == 0
            &&& b.input_mode == InputMode::Normal
            &&& b.downloads@.len() == a.downloads@.len() + 1
            &&& b.downloads@.drop_last() == a.downloads@
            &&& b.downloads@.last().id == id
            &&& b.downloads@.last().url@ == url@
            &&& b.downloads@.last().status == ItemStatus::Queued
            &&& b.downloads@.last().progress == 0
            &&& b.selected_download == a.downloads@.len()
        },
{
}

/// A path typed between a pair of double or single quotes is taken without them.
pub proof fn lemma_sanitize_path_unquotes(inner: Seq<char>, q: char)
    requires
        q == '"' || q == '\'',
    ensures
        spec_sanitize_path(seq![q] + inner + seq![q]) == spec_sanitize_path(inner),
{
    let w = seq![q] + inner + seq![q];
    assert(w[0] == q);
    assert(w.last() == q);
    crate::text::lemma_strip_fixed(w, CharClass::Whitespace);
    assert(w.subrange(1, w.len() - 1) == inner);
    assert(quoted(w));
}

/// A blank path (empty or only whitespace) resets to `./downloads`.
pub proof fn lemma_sanitize_path_blank_is_default(input: Seq<char>)
    requires
        trim(input).len() == 0,
    ensures
        spec_sanitize_path(input) == "./downloads"@,
{
}

/// A path with no whitespace around it and no quote at its start is kept as typed
/// (no `~` expansion or other rewriting).
pub proof fn lemma_sanitize_path_keeps_plain_path(input: Seq<char>)
    requires
        input.len() > 0,
        !is_ws(input[0]),
        !is_ws(input.last()),
        input[0] != '"',
        input[0] != '\'',
    ensures
        spec_sanitize_path(input) == input,
{
    crate::text::lemma_strip_fixed(input, CharClass::Whitespace);
}

/// A status for a tool reaches the setup item of that tool (the first with its
/// id) and no other.
pub proof fn lemma_tool_status_reaches_that_tool(
    tools: Seq<SetupToolItem>,
    tool: Seq<char>,
    status: ToolSetupStatus,
    i: int,
)
    requires
        is_first_tool(tools, tool, i),
    ensures
        with_tool_status(tools, tool, status).len() == tools.len(),
        with_tool_status(tools, tool, status)[i].status == status,
        with_tool_status(tools, tool, status)[i].id == tools[i].id,
        forall|j: int| 0 <= j < tools.len() && j != i ==> #[trigger] with_tool_status(tools, tool, status)[j] == tools[j],
{
    lemma_first_tool_unique(tools, tool, i);
}

/// What the setup screen makes of the installer's events: progress for a tool
/// shows that tool downloading at that percentage, completion moves setup to
/// Complete, and an error marks the tool failed with the error and moves setup to
/// its Error phase; nothing outside the setup state changes.
pub proof fn lemma_setup_events(a: App, b: App, event: SetupEvent, i: int)
    requires
        a.setup_state is Some,
        setup_event_effect(a, b, event),
    ensures
        b == (App { setup_state: b.setup_state, ..a }),
        b.setup_state is Some,
        match event {
            SetupEvent::Progress { tool, percent } => {
                &&& b.setup_state->Some_0.phase == a.setup_state->Some_0.phase
                &&& is_first_tool(a.setup_state->Some_0.tools@, tool@, i)
                    ==> b.setup_state->Some_0.tools@[i].status == (ToolSetupStatus::Downloading {
                    percent,
                })
            },
            SetupEvent::Complete => {
                &&& b.setup_state->Some_0.phase == SetupPhase::Complete
                &&& b.setup_state->Some_0.tools == a.setup_state->Some_0.tools
            },
            SetupEvent::Error { tool, error } => {
                &&& b.setup_state->Some_0.phase is Error
                &&& is_first_tool(a.setup_state->Some_0.tools@, tool@, i)
                    ==> b.setup_state->Some_0.tools@[i].status == ToolSetupStatus::Failed(error)
            },
            _ => true,
        },
{
    match event {
        SetupEvent::Progress { tool, percent } => {
            if is_first_tool(a.setup_state->Some_0.tools@, tool@, i) {
                lemma_tool_status_reaches_that_tool(
                    a.setup_state->Some_0.tools@,
                    tool@,
                    ToolSetupStatus::Downloading { percent },
                    i,
                );
            }
        },
        SetupEvent::Error { tool, error } => {
            if is_first_tool(a.setup_state->Some_0.tools@, tool@, i) {
                lemma_tool_status_reaches_that_tool(
                    a.setup_state->Some_0.tools@,
                    tool@,
                    ToolSetupStatus::Failed(error),
                    i,
                );
            }
        },
        _ => {},
    }
}

/// Deleting in the history inspector removes exactly the selected entry: the
/// entries before it stay in place, those after it move up by one, and the
/// history is then to be saved.
pub proof fn lemma_delete_removes_selected_entry(a: App, b: App)
    requires
        delete_selected_history_entry_effect(a, b),
        a.history_modal is Some,
        a.history_modal->Some_0.selected < a.history@.len(),
    ensures
        ({
            let sel = a.history_modal->Some_0.selected as int;
            &&& b.history@.len() + 1 == a.history@.len()
            &&& forall|k: int| 0 <= k < sel ==> #[trigger] b.history@[k] == a.history@[k]
            &&& forall|k: int| sel <= k < b.history@.len() ==> #[trigger] b.history@[k] == a.history@[k + 1]
            &&& b.needs_history_save
        }),
{
}

/// Retrying the selected history entry starts a new download of its URL with the
/// next id, queued at the end of the list, and closes the inspector.
pub proof fn lemma_retry_requeues_selected_url(a: App, b: App, r: Option<(usize, String)>)
    requires
        retry_selected_history_effect(a, b, r),
        a.history_modal is Some,
        a.history_modal->Some_0.selected < a.history@.len(),
    ensures
        ({
            let url = a.history@[a.history_modal->Some_0.selected as int].url@;
            &&& r is Some
            &&& r->Some_0.0 == a.next_download_id
            &&& r->Some_0.1@ == url
            &&& b.history_modal is None
            &&& b.downloads@.len() == a.downloads@.len() + 1
            &&& b.downloads@.last().url@ == url
            &&& b.downloads@.last().id == a.next_download_id
            &&& b.downloads@.last().status == ItemStatus::Queued
            &&& b.history == a.history
        }),
{
}

/// A download's log takes each new line at its end; it keeps every line until it
/// holds more than 200, and from then on drops its oldest line for each new one.
pub proof fn lemma_log_keeps_recent_lines(logs: Seq<Seq<char>>, log: Seq<char>)
    ensures
        appended_logs(logs, log).last() == log,
        logs.len() <= 200 ==> appended_logs(logs, log) == logs.push(log),
        logs.len() > 200 ==> appended_logs(logs, log) == logs.drop_first().push(log),
        logs.len() <= 201 ==> appended_logs(logs, log).len() <= 201,
{
}

} // verus!
