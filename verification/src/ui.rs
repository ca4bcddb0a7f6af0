//! The arithmetic of the terminal layout: truncating texts to a width, centring a
//! dialog, and which part of a long list or line is in view.
use vstd::prelude::*;
use ratatui::layout::Constraint::Percentage;
use crate::app::{concat3, numbered, scheme_name, InputMode, InputScheme, ItemStatus, ItemStatusView};
use crate::config::{decimal, digit_char, push_decimal};
use crate::deps::{ToolSetupStatus, ToolSetupStatusView};
use crate::text::{chars_of, extend_range, owned, string_of};

verus! {

/// The text `s` cut to at most `max_chars` characters from its start, keeping its
/// tail behind an ellipsis when it is longer.
pub open spec fn spec_truncate_path_tail(s: Seq<char>, max_chars: usize) -> Seq<char> {
    if s.len() <= max_chars {
        s
    } else if max_chars == 0 {
        Seq::empty()
    } else {
        seq!['\u{2026}'] + s.skip(s.len() - (max_chars - 1))
    }
}

/// Truncates a file path string from the beginning, keeping the tail and prepending "…"
/// if it exceeds `max_chars`.
pub fn truncate_path_tail(path: &str, max_chars: usize) -> (r: String)
    ensures
        r@ == spec_truncate_path_tail(path@, max_chars),
        r@.len() <= max_chars || r@ == path@,
{
    let v = chars_of(path);
    let n = v.len();
    if n <= max_chars {
        return string_of(&v);
    }
    if max_chars == 0 {
        return String::new();
    }
    let mut out: Vec<char> = Vec::new();
    out.push('\u{2026}');
    extend_range(&mut out, &v, n - (max_chars - 1), n);
    assert(v@.subrange(n - (max_chars - 1), n as int) == path@.skip(
        path@.len() - (max_chars - 1),
    ));
    string_of(&out)
}

/// The text `s` cut to at most `max_chars` characters, keeping its start in front
/// of an ellipsis when it is longer.
pub open spec fn spec_truncate_str(s: Seq<char>, max_chars: usize) -> Seq<char> {
    if s.len() <= max_chars {
        s
    } else if max_chars == 0 {
        Seq::empty()
    } else {
        s.take(max_chars - 1) + seq!['\u{2026}']
    }
}

/// Truncates a string to at most `max_chars`, appending an ellipsis if truncated.
pub fn truncate_str(s: &str, max_chars: usize) -> (r: String)
    ensures
        r@ == spec_truncate_str(s@, max_chars),
        r@.len() <= max_chars || r@ == s@,
{
    let v = chars_of(s);
    let n = v.len();
    if n <= max_chars {
        return string_of(&v);
    }
    if max_chars == 0 {
        return String::new();
    }
    let mut out: Vec<char> = Vec::new();
    extend_range(&mut out, &v, 0, max_chars - 1);
    out.push('\u{2026}');
    assert(v@.subrange(0, max_chars - 1) == s@.take(max_chars - 1));
    string_of(&out)
}

/// A rectangle of terminal cells.
#[derive(Debug, Clone, Copy, PartialEq, Eq, Default, Structural)]
pub struct Rect {
    pub x: u16,
    pub y: u16,
    pub width: u16,
    pub height: u16,
}

/// Whether the rectangle lies within the screen's coordinates.
pub open spec fn on_screen(r: Rect) -> bool {
    r.x + r.width <= u16::MAX && r.y + r.height <= u16::MAX
}

/// Whether `inner` lies within `outer`.
pub open spec fn within(inner: Rect, outer: Rect) -> bool {
    &&& outer.x <= inner.x
    &&& inner.x + inner.width <= outer.x + outer.width
    &&& outer.y <= inner.y
    &&& inner.y + inner.height <= outer.y + outer.height
}

/// A dimension of a centred dialog: the wanted size, leaving a cell of margin on
/// each side, and at least one cell.
pub open spec fn dialog_size(wanted: u16, room: u16) -> u16 {
    let capped = if wanted < room - 2 {
        wanted
    } else {
        (room - 2) as u16
    };
    if capped < 1 {
        1
    } else {
        capped
    }
}

/// A rectangle of `width` by `height` centred in `r`, shrunk to leave a margin
/// of one cell; empty when `r` leaves no room.
pub open spec fn spec_centered_rect_bounded(width: u16, height: u16, r: Rect) -> Rect {
    if r.width <= 2 || r.height <= 2 {
        Rect { x: 0, y: 0, width: 0, height: 0 }
    } else {
        let w = dialog_size(width, r.width);
        let h = dialog_size(height, r.height);
        Rect {
            x: (r.x + (r.width - w) / 2) as u16,
            y: (r.y + (r.height - h) / 2) as u16,
            width: w,
            height: h,
        }
    }
}

/// Helper function to generate a centered rect with fixed bounding dimensions,
/// clamped so it never exceeds the outer area.
pub fn centered_rect_bounded(width: u16, height: u16, r: Rect) -> (c: Rect)
    requires
        on_screen(r),
    ensures
        c == spec_centered_rect_bounded(width, height, r),
        r.width > 2 && r.height > 2 ==> within(c, r),
{
    if r.width <= 2 || r.height <= 2 {
        return Rect { x: 0, y: 0, width: 0, height: 0 };
    }
    let room_w = r.width - 2;
    let room_h = r.height - 2;
    let w0 = if width < room_w {
        width
    } else {
        room_w
    };
    let h0 = if height < room_h {
        height
    } else {
        room_h
    };
    let w = if w0 < 1 {
        1
    } else {
        w0
    };
    let h = if h0 < 1 {
        1
    } else {
        h0
    };
    Rect { x: r.x + (r.width - w) / 2, y: r.y + (r.height - h) / 2, width: w, height: h }
}

/// The downloads the list shows, `start..end`, when `rows` rows are free for it:
/// three rows per download, and the selected one at the bottom once it would fall
/// below.
pub open spec fn spec_list_window(selected: usize, len: usize, rows: u16) -> (usize, usize) {
    let visible = if rows / 3 < 1 {
        1
    } else {
        rows / 3
    };
    let start = if selected >= visible {
        (selected + 1 - visible) as usize
    } else {
        0
    };
    let end = if start + visible < len {
        (start + visible) as usize
    } else {
        len
    };
    (start, end)
}

/// The part of the downloads list in view.
pub fn list_window(selected: usize, len: usize, rows: u16) -> (r: (usize, usize))
    requires
        selected < len,
    ensures
        r == spec_list_window(selected, len, rows),
        r.0 <= selected < r.1 <= len,
{
    let visible: usize = if rows / 3 < 1 {
        1
    } else {
        (rows / 3) as usize
    };
    let start = if selected >= visible {
        selected + 1 - visible
    } else {
        0
    };
    let end = if visible < len && start < len - visible {
        start + visible
    } else {
        len
    };
    (start, end)
}

/// The first history entry in view: the stored one, moved just enough to show the
/// selected entry and to fill the view when the list is long enough.
pub open spec fn spec_history_scroll(selected: usize, scroll: usize, len: usize, visible: usize) -> usize {
    let sel = if selected < len {
        selected
    } else if len > 0 {
        (len - 1) as usize
    } else {
        0
    };
    let s1 = if sel < scroll {
        sel
    } else if sel >= scroll + visible {
        (sel + 1 - visible) as usize
    } else {
        scroll
    };
    if s1 + visible > len {
        if len >= visible {
            (len - visible) as usize
        } else {
            0
        }
    } else {
        s1
    }
}

/// The first history entry in view for `visible` rows (at least one).
pub fn history_scroll(selected: usize, scroll: usize, len: usize, visible: usize) -> (r: usize)
    requires
        visible >= 1,
    ensures
        r == spec_history_scroll(selected, scroll, len, visible),
        len > 0 ==> r <= vstd::math::min(selected as int, (len - 1) as int) < r + visible,
{
    let sel = if selected < len {
        selected
    } else if len > 0 {
        len - 1
    } else {
        0
    };
    let s1 = if sel < scroll {
        sel
    } else if sel - scroll >= visible {
        sel + 1 - visible
    } else {
        scroll
    };
    if s1 > len || len - s1 < visible {
        if len >= visible {
            len - visible
        } else {
            0
        }
    } else {
        s1
    }
}

/// The first character of a text input in view, `width` characters wide (at
/// least one): the stored one, moved just enough to show the cursor.
pub open spec fn spec_input_scroll(cursor: usize, scroll: usize, width: usize) -> usize {
    if cursor < scroll {
        cursor
    } else if cursor >= scroll + width {
        (cursor - (width - 1)) as usize
    } else {
        scroll
    }
}

/// The first character of the path input in view.
pub fn input_scroll(cursor: usize, scroll: usize, width: usize) -> (r: usize)
    requires
        width >= 1,
    ensures
        r == spec_input_scroll(cursor, scroll, width),
        r <= cursor < r + width,
{
    if cursor < scroll {
        cursor
    } else if cursor - scroll >= width {
        cursor - (width - 1)
    } else {
        scroll
    }
}

/// A percentage given in hundredths, written with one decimal (the hundredths
/// rounded half up), such as `45.8%`.
pub open spec fn spec_percent_text(hundredths: u32) -> Seq<char> {
    let tenths = (hundredths + 5) / 10;
    decimal((tenths / 10) as nat) + seq!['.', digit_char((tenths % 10) as nat), '%']
}

/// Writes a percentage given in hundredths with one decimal.
pub fn percent_text(hundredths: u32) -> (r: String)
    ensures
        r@ == spec_percent_text(hundredths),
{
    let tenths: u64 = (hundredths as u64 + 5) / 10;
    let mut v: Vec<char> = Vec::new();
    push_decimal(&mut v, (tenths / 10) as usize);
    v.push('.');
    let mut d: Vec<char> = Vec::new();
    push_decimal(&mut d, (tenths % 10) as usize);
    assert(decimal((tenths % 10) as nat) == seq![digit_char((tenths % 10) as nat)]);
    v.push(d[0]);
    v.push('%');
    string_of(&v)
}

/// The badge that the setup screen shows for a tool's status.
pub open spec fn spec_tool_status_text(status: ToolSetupStatusView) -> Seq<char> {
    match status {
        ToolSetupStatusView::Found(loc) => "[Ready: "@ + loc + "]"@,
        ToolSetupStatusView::Installed => "[Installed in local data bin]"@,
        ToolSetupStatusView::Downloading { percent } => "[Downloading: "@ + spec_percent_text(
            percent,
        ) + "]"@,
        ToolSetupStatusView::Extracting => "[Extracting archive...]"@,
        ToolSetupStatusView::PendingDownload => "[Pending download]"@,
        ToolSetupStatusView::Failed(err) => "[Failed: "@ + err + "]"@,
        ToolSetupStatusView::Checking => "[Checking system...]"@,
    }
}

/// The badge that the setup screen shows for a tool's status.
pub fn tool_status_text(status: &ToolSetupStatus) -> (r: String)
    ensures
        r@ == spec_tool_status_text(status@),
{
    match status {
        ToolSetupStatus::Found(loc) => concat3("[Ready: ", loc.as_str(), "]"),
        ToolSetupStatus::Installed => owned("[Installed in local data bin]"),
        ToolSetupStatus::Downloading { percent } => {
            let p = percent_text(*percent);
            concat3("[Downloading: ", p.as_str(), "]")
        },
        ToolSetupStatus::Extracting => owned("[Extracting archive...]"),
        ToolSetupStatus::PendingDownload => owned("[Pending download]"),
        ToolSetupStatus::Failed(err) => concat3("[Failed: ", err.as_str(), "]"),
        ToolSetupStatus::Checking => owned("[Checking system...]"),
    }
}

/// The badge that the downloads list shows for an item's status.
pub open spec fn spec_download_badge(status: ItemStatusView, track: u8) -> Seq<char> {
    match status {
        ItemStatusView::Downloading => " [Track "@ + decimal(track as nat) + "] "@,
        ItemStatusView::Merging => " [Merging Audio/Video] "@,
        ItemStatusView::Completed => " [Done] "@,
        ItemStatusView::Failed(_) => " [Failed] "@,
        ItemStatusView::Queued => " [Queued] "@,
    }
}

/// The badge that the downloads list shows for an item's status.
pub fn download_badge(status: &ItemStatus, track: u8) -> (r: String)
    ensures
        r@ == spec_download_badge(status@, track),
{
    match status {
        ItemStatus::Downloading => numbered(" [Track ", track as usize, "] "),
        ItemStatus::Merging => owned(" [Merging Audio/Video] "),
        ItemStatus::Completed => owned(" [Done] "),
        ItemStatus::Failed(_) => owned(" [Failed] "),
        ItemStatus::Queued => owned(" [Queued] "),
    }
}

/// The middle of the three parts into which ratatui's `Layout` splits `r`
/// (vertically when `vertical`, else horizontally) under the constraints
/// `Percentage(outer)`, `Percentage(middle)`, `Percentage(outer)`.
pub uninterp spec fn layout_middle(vertical: bool, outer: u16, middle: u16, r: Rect) -> Rect;

/// Splits `r` with `ratatui::layout::Layout::split` under the constraints
/// `Percentage(outer)`, `Percentage(middle)`, `Percentage(outer)`, in the given
/// direction, and returns the middle part. The result is only named: the sizes
/// come from ratatui's constraint solver.
#[verifier::external_body]
fn split_middle(vertical: bool, outer: u16, middle: u16, r: Rect) -> (m: Rect)
    ensures
        m == layout_middle(vertical, outer, middle, r),
{
    let direction = if vertical {
        ratatui::layout::Direction::Vertical
    } else {
        ratatui::layout::Direction::Horizontal
    };
    let area = ratatui::layout::Rect { x: r.x, y: r.y, width: r.width, height: r.height };
    let parts = ratatui::layout::Layout::default().direction(direction).constraints(
        [Percentage(outer), Percentage(middle), Percentage(outer)],
    ).split(area);
    Rect { x: parts[1].x, y: parts[1].y, width: parts[1].width, height: parts[1].height }
}

/// A rectangle of `percent_x` by `percent_y` percent of `r`, centred in it.
pub open spec fn spec_centered_rect(percent_x: u16, percent_y: u16, r: Rect) -> Rect {
    let band = layout_middle(true, ((100 - percent_y) / 2) as u16, percent_y, r);
    layout_middle(false, ((100 - percent_x) / 2) as u16, percent_x, band)
}

/// Helper function to generate a centered rect of given percentage dimensions.
pub fn centered_rect(percent_x: u16, percent_y: u16, r: Rect) -> (c: Rect)
    requires
        percent_x <= 100,
        percent_y <= 100,
    ensures
        c == spec_centered_rect(percent_x, percent_y, r),
{
    let band = split_middle(true, (100 - percent_y) / 2, percent_y, r);
    split_middle(false, (100 - percent_x) / 2, percent_x, band)
}

/// The characters left for the output directory in the header's title, which
/// holds the application name, the scheme (its short name below 95 columns), the
/// mode, and the frame.
pub open spec fn spec_header_dir_budget(width: u16, scheme: InputScheme, mode: InputMode) -> usize {
    let wide = width >= 95;
    let subtitle_len: int = if wide {
        18
    } else {
        1
    };
    let scheme_len: int = if wide {
        scheme_name(scheme).len() as int
    } else {
        match scheme {
            InputScheme::StandardModal => 5,
            InputScheme::Vim => 3,
        }
    };
    let mode_len: int = match mode {
        InputMode::Editing => 7,
        InputMode::Normal => 6,
    };
    let fixed = 8 + subtitle_len + 9 + scheme_len + 9 + mode_len + 8 + 1;
    let available = if width >= 4 {
        width - 4
    } else {
        0
    };
    if available >= fixed {
        (available - fixed) as usize
    } else {
        0
    }
}

/// The characters left for the output directory in the header's title.
pub fn header_dir_budget(width: u16, scheme: InputScheme, mode: InputMode) -> (r: usize)
    ensures
        r == spec_header_dir_budget(width, scheme, mode),
{
    proof {
        reveal_strlit("Modal (Standard)");
        reveal_strlit("Vim");
    }
    let wide = width >= 95;
    let subtitle_len: usize = if wide {
        18
    } else {
        1
    };
    let scheme_len: usize = if wide {
        match scheme {
            InputScheme::StandardModal => 16,
            InputScheme::Vim => 3,
        }
    } else {
        match scheme {
            InputScheme::StandardModal => 5,
            InputScheme::Vim => 3,
        }
    };
    let mode_len: usize = match mode {
        InputMode::Editing => 7,
        InputMode::Normal => 6,
    };
    let fixed = 8 + subtitle_len + 9 + scheme_len + 9 + mode_len + 8 + 1;
    let available: usize = if width >= 4 {
        (width - 4) as usize
    } else {
        0
    };
    if available >= fixed {
        available - fixed
    } else {
        0
    }
}

} // verus!
