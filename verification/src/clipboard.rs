//! Cleaning up text pasted from the clipboard.
use vstd::prelude::*;
use crate::text::{
    chars_of, find_char, index_of, is_ws, lemma_lead_count_bound, lemma_lead_count_unique,
    in_class, lead_count, lemma_strip_chars, lemma_strip_fixed, lemma_strip_idempotent,
    lemma_trail_count_bound, lemma_trail_count_unique, strip_start, trail_count, lemma_strip_nonempty, lemma_strip_subrange,
    string_of_range, trim, trim_range, CharClass,
};

verus! {

/// The first line of `s` (lines end at `\n`) that is not blank, if any.
pub open spec fn first_nonblank_line(s: Seq<char>) -> Option<Seq<char>>
    decreases s.len(),
{
    let i = index_of(s, '\n');
    if trim(s.take(i as int)).len() > 0 {
        Some(s.take(i as int))
    } else if i < s.len() {
        first_nonblank_line(s.skip(i + 1int))
    } else {
        None
    }
}

/// Whether `open` and `close` delimit a pasted text: matching quotes, backticks,
/// curly quotes, angle, round or square brackets.
pub open spec fn is_delimiter_pair(open: char, close: char) -> bool {
    ||| (open == '"' && close == '"')
    ||| (open == '\'' && close == '\'')
    ||| (open == '`' && close == '`')
    ||| (open == '<' && close == '>')
    ||| (open == '\u{201c}' && close == '\u{201d}')
    ||| (open == '\u{2018}' && close == '\u{2019}')
    ||| (open == '(' && close == ')')
    ||| (open == '[' && close == ']')
}

pub open spec fn delimited(s: Seq<char>) -> bool {
    s.len() >= 2 && is_delimiter_pair(s[0], s.last())
}

/// Repeatedly removes one pair of enclosing delimiters and the whitespace inside it.
pub open spec fn unwrap_delimiters(s: Seq<char>) -> Seq<char>
    decreases s.len(),
{
    if delimited(s) {
        proof {
            lemma_strip_subrange(s.subrange(1, s.len() - 1), CharClass::Whitespace);
        }
        unwrap_delimiters(trim(s.subrange(1, s.len() - 1)))
    } else {
        s
    }
}

/// The line of `text` that is kept: the first line that is not blank, trimmed,
/// or the trimmed text when every line is blank.
pub open spec fn kept_line(text: Seq<char>) -> Seq<char> {
    let t = trim(text);
    match first_nonblank_line(t) {
        Some(l) => trim(l),
        None => t,
    }
}

/// What `sanitize_clipboard_text` returns for `text`.
pub open spec fn spec_sanitize_clipboard_text(text: Seq<char>) -> Seq<char> {
    unwrap_delimiters(kept_line(text))
}

/// Whether `part` is a contiguous piece of `whole`.
pub open spec fn is_slice_of(part: Seq<char>, whole: Seq<char>) -> bool {
    exists|i: int, j: int| 0 <= i <= j <= whole.len() && part == whole.subrange(i, j)
}

fn delimiter_pair(open: char, close: char) -> (b: bool)
    ensures
        b == is_delimiter_pair(open, close),
{
    (open == '"' && close == '"') || (open == '\'' && close == '\'') || (open == '`' && close
        == '`') || (open == '<' && close == '>') || (open == '\u{201c}' && close == '\u{201d}')
        || (open == '\u{2018}' && close == '\u{2019}') || (open == '(' && close == ')') || (open
        == '[' && close == ']')
}

/// Sanitizes pasted clipboard content:
/// - Strips accidental enclosing single quotes, double quotes, backticks, angle brackets, or unicode curly quotes
/// - Trims leading and trailing whitespace / newlines
/// - Takes the first line if multi-line text is pasted (preventing accidental shell injection)
pub fn sanitize_clipboard_text(text: &str) -> (r: String)
    ensures
        r@ == spec_sanitize_clipboard_text(text@),
{
    let v = chars_of(text);
    let n = v.len();
    assert(v@.subrange(0, n as int) == v@);
    let (t0, t1) = trim_range(&v, 0, n);
    let ghost t = v@.subrange(t0 as int, t1 as int);
    // Look for the first line that is not blank.
    let mut start = t0;
    let mut found: Option<(usize, usize)> = None;
    let mut exhausted = false;
    while found.is_none() && !exhausted
        invariant
            t0 <= start <= t1,
            t1 <= n == v.len(),
            t == v@.subrange(t0 as int, t1 as int),
            found is None && !exhausted ==> first_nonblank_line(t) == first_nonblank_line(
                v@.subrange(start as int, t1 as int),
            ),
            found is None && exhausted ==> first_nonblank_line(t) is None,
            found matches Some((a, b)) ==> a <= b <= n && first_nonblank_line(t) == Some(
                v@.subrange(a as int, b as int),
            ),
        decreases t1 - start, (if found is None && !exhausted { 1int } else { 0int }),
    {
        let ghost s = v@.subrange(start as int, t1 as int);
        let e = find_char(&v, start, t1, '\n');
        proof {
            lemma_lead_count_bound(s, CharClass::NotChar('\n'));
        }
        assert(s.take(e - start) == v@.subrange(start as int, e as int));
        let (l0, l1) = trim_range(&v, start, e);
        if l0 < l1 {
            found = Some((start, e));
        } else if e < t1 {
            assert(s.skip(e - start + 1) == v@.subrange(e + 1, t1 as int));
            start = e + 1;
        } else {
            exhausted = true;
        }
    }
    let (mut a, mut b) = match found {
        Some((l0, l1)) => trim_range(&v, l0, l1),
        None => (t0, t1),
    };
    while b - a >= 2 && delimiter_pair(v[a], v[b - 1])
        invariant
            a <= b <= n == v.len(),
            spec_sanitize_clipboard_text(text@) == unwrap_delimiters(
                v@.subrange(a as int, b as int),
            ),
        decreases b - a,
    {
        let ghost s = v@.subrange(a as int, b as int);
        assert(s.subrange(1, s.len() - 1) == v@.subrange(a + 1, b - 1));
        let (a2, b2) = trim_range(&v, a + 1, b - 1);
        a = a2;
        b = b2;
    }
    string_of_range(&v, a, b)
}

proof fn lemma_first_nonblank_line_has_no_newline(s: Seq<char>)
    ensures
        first_nonblank_line(s) matches Some(l) ==> !l.contains('\n') && trim(l).len() > 0,
    decreases s.len(),
{
    let i = index_of(s, '\n');
    lemma_lead_count_bound(s, CharClass::NotChar('\n'));
    if trim(s.take(i as int)).len() > 0 {
        let l = s.take(i as int);
        if l.contains('\n') {
            let j = choose|j: int| 0 <= j < l.len() && l[j] == '\n';
            assert(s[j] != '\n');
        }
    } else if i < s.len() {
        lemma_first_nonblank_line_has_no_newline(s.skip(i + 1int));
    }
}

proof fn lemma_unwrap_delimiters_fixed(s: Seq<char>)
    requires
        trim(s) == s,
        !s.contains('\n'),
    ensures
        trim(unwrap_delimiters(s)) == unwrap_delimiters(s),
        !unwrap_delimiters(s).contains('\n'),
        !delimited(unwrap_delimiters(s)),
    decreases s.len(),
{
    if delimited(s) {
        let mid = s.subrange(1, s.len() - 1);
        lemma_strip_subrange(mid, CharClass::Whitespace);
        lemma_strip_idempotent(mid, CharClass::Whitespace);
        if mid.contains('\n') {
            let j = choose|j: int| 0 <= j < mid.len() && mid[j] == '\n';
            assert(s[j + 1] == '\n');
        }
        lemma_strip_chars(mid, CharClass::Whitespace, '\n');
        lemma_unwrap_delimiters_fixed(trim(mid));
    }
}

/// Sanitizing pasted text twice gives what sanitizing it once gives.
pub proof fn lemma_sanitize_clipboard_text_idempotent(text: Seq<char>)
    ensures
        spec_sanitize_clipboard_text(spec_sanitize_clipboard_text(text)) == spec_sanitize_clipboard_text(
            text,
        ),
{
    let t = trim(text);
    lemma_strip_idempotent(text, CharClass::Whitespace);
    lemma_first_nonblank_line_has_no_newline(t);
    match first_nonblank_line(t) {
        Some(l) => {
            lemma_strip_idempotent(l, CharClass::Whitespace);
            lemma_strip_chars(l, CharClass::Whitespace, '\n');
            lemma_unwrap_delimiters_fixed(trim(l));
        },
        None => {
            if t.len() > 0 {
                lemma_strip_subrange(text, CharClass::Whitespace);
                let i = index_of(t, '\n');
                lemma_lead_count_bound(t, CharClass::NotChar('\n'));
                assert(is_ws('\n'));
                assert(i > 0);
                assert(t.take(i as int)[0] == t[0]);
                lemma_strip_nonempty(t.take(i as int), CharClass::Whitespace);
                assert(false);
            }
            assert(!t.contains('\n'));
            lemma_unwrap_delimiters_fixed(t);
        },
    }
    let r = spec_sanitize_clipboard_text(text);
    lemma_lead_count_unique(r, CharClass::NotChar('\n'), r.len());
    assert(r.take(r.len() as int) == r);
}

proof fn lemma_first_line_shorter(s: Seq<char>)
    ensures
        first_nonblank_line(s) matches Some(l) ==> l.len() <= s.len(),
    decreases s.len(),
{
    let i = index_of(s, '\n');
    lemma_lead_count_bound(s, CharClass::NotChar('\n'));
    if trim(s.take(i as int)).len() > 0 {
    } else if i < s.len() {
        lemma_first_line_shorter(s.skip(i + 1int));
    }
}

proof fn lemma_unwrap_shorter(s: Seq<char>)
    ensures
        unwrap_delimiters(s).len() <= s.len(),
    decreases s.len(),
{
    if delimited(s) {
        let inner = s.subrange(1, s.len() - 1);
        lemma_strip_subrange(inner, CharClass::Whitespace);
        lemma_unwrap_shorter(trim(inner));
    }
}

/// Sanitizing never lengthens a text.
pub proof fn lemma_sanitize_clipboard_text_shorter(text: Seq<char>)
    ensures
        spec_sanitize_clipboard_text(text).len() <= text.len(),
{
    let t = trim(text);
    lemma_strip_subrange(text, CharClass::Whitespace);
    lemma_first_line_shorter(t);
    let line = match first_nonblank_line(t) {
        Some(l) => trim(l),
        None => t,
    };
    if let Some(l) = first_nonblank_line(t) {
        lemma_strip_subrange(l, CharClass::Whitespace);
    }
    lemma_unwrap_shorter(line);
}

/// What a clipboard source offers for pasting: its text sanitized, when anything
/// is left of it. Sources are tried in turn until one offers something.
pub fn clipboard_candidate(raw: &str) -> (r: Option<String>)
    ensures
        match r {
            Some(t) => t@ == spec_sanitize_clipboard_text(raw@) && t@.len() > 0,
            None => spec_sanitize_clipboard_text(raw@).len() == 0,
        },
{
    let clean = sanitize_clipboard_text(raw);
    if crate::text::char_count(clean.as_str()) > 0 {
        Some(clean)
    } else {
        None
    }
}

/// A command-line clipboard reader, tried when the native clipboard offers nothing.
#[derive(Debug, Clone, Copy, PartialEq, Eq, Structural)]
pub enum ClipboardSource {
    /// `powershell -NoProfile -Command Get-Clipboard` (Windows).
    PowerShell,
    /// `powershell.exe -NoProfile -Command Get-Clipboard` (the Windows host, from WSL).
    WslPowerShell,
    /// `wl-paste --no-newline` (Wayland).
    WlPaste,
    /// `xclip -selection clipboard -o` (X11).
    Xclip,
    /// `xsel --clipboard --output` (X11).
    Xsel,
}

/// The command-line clipboard readers to try, in order.
pub open spec fn spec_clipboard_fallbacks(windows: bool, wsl: bool) -> Seq<ClipboardSource> {
    if windows {
        seq![ClipboardSource::PowerShell]
    } else if wsl {
        seq![
            ClipboardSource::WslPowerShell,
            ClipboardSource::WlPaste,
            ClipboardSource::Xclip,
            ClipboardSource::Xsel,
        ]
    } else {
        seq![ClipboardSource::WlPaste, ClipboardSource::Xclip, ClipboardSource::Xsel]
    }
}

/// The command-line clipboard readers to try, in order, on Windows or elsewhere
/// (inside WSL or not).
pub fn clipboard_fallbacks(windows: bool, wsl: bool) -> (r: Vec<ClipboardSource>)
    ensures
        r@ == spec_clipboard_fallbacks(windows, wsl),
{
    let mut r: Vec<ClipboardSource> = Vec::new();
    if windows {
        r.push(ClipboardSource::PowerShell);
    } else {
        if wsl {
            r.push(ClipboardSource::WslPowerShell);
        }
        r.push(ClipboardSource::WlPaste);
        r.push(ClipboardSource::Xclip);
        r.push(ClipboardSource::Xsel);
    }
    assert(r@ =~= spec_clipboard_fallbacks(windows, wsl));
    r
}

/// Whether a Linux system runs inside WSL: `WSL_DISTRO_NAME` or `WSL_INTEROP` is
/// set, or the kernel's version text (`/proc/version`) mentions Microsoft in any
/// case.
pub fn is_wsl(distro_set: bool, interop_set: bool, proc_version: Option<&str>) -> (r: bool)
    ensures
        r == (distro_set || interop_set || match proc_version {
            Some(v) => crate::text::contains_ignore_ascii_case(v@, "microsoft"@),
            None => false,
        }),
{
    if distro_set || interop_set {
        return true;
    }
    match proc_version {
        Some(v) => crate::text::str_contains_ignore_ascii_case(v, "microsoft"),
        None => false,
    }
}

/// Sanitized pasted text is a single line: it holds no line feed.
pub proof fn lemma_sanitized_clipboard_text_single_line(text: Seq<char>)
    ensures
        !spec_sanitize_clipboard_text(text).contains('\n'),
{
    lemma_kept_line_fixed(text);
    lemma_unwrap_delimiters_fixed(kept_line(text));
}

proof fn lemma_kept_line_fixed(text: Seq<char>)
    ensures
        trim(kept_line(text)) == kept_line(text),
        !kept_line(text).contains('\n'),
{
    let t = trim(text);
    lemma_strip_idempotent(text, CharClass::Whitespace);
    lemma_first_nonblank_line_has_no_newline(t);
    match first_nonblank_line(t) {
        Some(l) => {
            lemma_strip_idempotent(l, CharClass::Whitespace);
            lemma_strip_chars(l, CharClass::Whitespace, '\n');
        },
        None => {
            if t.len() > 0 {
                lemma_strip_subrange(text, CharClass::Whitespace);
                let i = index_of(t, '\n');
                lemma_lead_count_bound(t, CharClass::NotChar('\n'));
                assert(is_ws('\n'));
                assert(t.take(i as int)[0] == t[0]);
                lemma_strip_nonempty(t.take(i as int), CharClass::Whitespace);
            }
        },
    }
}

proof fn lemma_slice_of_slice(a: Seq<char>, b: Seq<char>, c: Seq<char>)
    requires
        is_slice_of(a, b),
        is_slice_of(b, c),
    ensures
        is_slice_of(a, c),
{
    let (i, j) = choose|i: int, j: int| 0 <= i <= j <= b.len() && a == b.subrange(i, j);
    let (k, l) = choose|k: int, l: int| 0 <= k <= l <= c.len() && b == c.subrange(k, l);
    assert(a == c.subrange(k + i, k + j));
}

proof fn lemma_trim_is_slice(s: Seq<char>)
    ensures
        is_slice_of(trim(s), s),
{
    lemma_strip_subrange(s, CharClass::Whitespace);
    let i = lead_count(s, CharClass::Whitespace) as int;
    assert(trim(s) == s.subrange(i, i + trim(s).len()));
}

proof fn lemma_first_nonblank_line_is_slice(s: Seq<char>)
    ensures
        first_nonblank_line(s) matches Some(l) ==> is_slice_of(l, s),
    decreases s.len(),
{
    let i = index_of(s, '\n');
    lemma_lead_count_bound(s, CharClass::NotChar('\n'));
    if trim(s.take(i as int)).len() > 0 {
        assert(s.take(i as int) == s.subrange(0, i as int));
    } else if i < s.len() {
        let rest = s.skip(i + 1int);
        lemma_first_nonblank_line_is_slice(rest);
        if let Some(l) = first_nonblank_line(rest) {
            assert(rest == s.subrange(i + 1int, s.len() as int));
            assert(is_slice_of(rest, s));
            lemma_slice_of_slice(l, rest, s);
        }
    }
}

proof fn lemma_unwrap_delimiters_is_slice(s: Seq<char>)
    ensures
        is_slice_of(unwrap_delimiters(s), s),
    decreases s.len(),
{
    if delimited(s) {
        let mid = s.subrange(1, s.len() - 1);
        lemma_strip_subrange(mid, CharClass::Whitespace);
        lemma_trim_is_slice(mid);
        assert(is_slice_of(mid, s));
        lemma_slice_of_slice(trim(mid), mid, s);
        lemma_unwrap_delimiters_is_slice(trim(mid));
        lemma_slice_of_slice(unwrap_delimiters(trim(mid)), trim(mid), s);
    } else {
        assert(s == s.subrange(0, s.len() as int));
    }
}

/// What sanitizing pasted text gives is a contiguous piece of that text, with no
/// whitespace left at either end.
pub proof fn lemma_sanitized_clipboard_text_trimmed_slice(text: Seq<char>)
    ensures
        is_slice_of(spec_sanitize_clipboard_text(text), text),
        trim(spec_sanitize_clipboard_text(text)) == spec_sanitize_clipboard_text(text),
{
    let t = trim(text);
    lemma_trim_is_slice(text);
    lemma_first_nonblank_line_is_slice(t);
    if let Some(l) = first_nonblank_line(t) {
        lemma_trim_is_slice(l);
        lemma_slice_of_slice(l, t, text);
        lemma_slice_of_slice(trim(l), l, text);
    }
    lemma_unwrap_delimiters_is_slice(kept_line(text));
    lemma_slice_of_slice(spec_sanitize_clipboard_text(text), kept_line(text), text);
    lemma_kept_line_fixed(text);
    lemma_unwrap_delimiters_fixed(kept_line(text));
}

proof fn lemma_single_line_kept_whole(t: Seq<char>)
    requires
        !t.contains('\n'),
        trim(t) == t,
    ensures
        t.len() > 0 ==> first_nonblank_line(t) == Some(t),
        t.len() == 0 ==> first_nonblank_line(t) is None,
{
    lemma_lead_count_bound(t, CharClass::NotChar('\n'));
    let i = index_of(t, '\n');
    if i < t.len() {
        assert(t[i as int] == '\n');
        assert(t.contains('\n'));
    }
    assert(t.take(t.len() as int) == t);
}

/// Pasted text on one line that is wrapped in a pair of delimiters (quotes,
/// backticks, angle, round or square brackets) sanitizes to what the text inside
/// sanitizes to: the delimiters are taken off.
pub proof fn lemma_sanitize_strips_enclosing_delimiters(inner: Seq<char>, open: char, close: char)
    requires
        is_delimiter_pair(open, close),
        !inner.contains('\n'),
    ensures
        spec_sanitize_clipboard_text(seq![open] + inner + seq![close])
            == spec_sanitize_clipboard_text(inner),
{
    let w = seq![open] + inner + seq![close];
    assert(w[0] == open);
    assert(w.last() == close);
    lemma_strip_fixed(w, CharClass::Whitespace);
    if w.contains('\n') {
        let j = choose|j: int| 0 <= j < w.len() && w[j] == '\n';
        assert(inner[j - 1] == '\n');
    }
    lemma_single_line_kept_whole(w);
    lemma_strip_fixed(w, CharClass::Whitespace);
    assert(kept_line(w) == w);
    assert(w.subrange(1, w.len() - 1) == inner);
    assert(delimited(w));
    // The text inside: its trimmed form is its only line.
    let t = trim(inner);
    lemma_strip_idempotent(inner, CharClass::Whitespace);
    lemma_strip_chars(inner, CharClass::Whitespace, '\n');
    lemma_single_line_kept_whole(t);
    assert(kept_line(inner) == t);
}

/// Multi-line pasted text keeps only its first line: text that starts with a line
/// that is not blank, followed by a newline and anything at all, sanitizes to what
/// that first line alone sanitizes to.
pub proof fn lemma_sanitize_keeps_first_line(line: Seq<char>, rest: Seq<char>)
    requires
        !line.contains('\n'),
        trim(line).len() > 0,
    ensures
        spec_sanitize_clipboard_text(line + seq!['\n'] + rest) == spec_sanitize_clipboard_text(line),
{
    let ws = CharClass::Whitespace;
    let a = lead_count(line, ws);
    let tl = trim(line);
    let n = tl.len();
    lemma_lead_count_bound(line, ws);
    lemma_strip_subrange(line, ws);
    let sl = line.skip(a as int);
    lemma_trail_count_bound(sl, ws);
    assert(n == sl.len() - trail_count(sl, ws));
    assert forall|j: int| a + n <= j < line.len() implies is_ws(#[trigger] line[j]) by {
        assert(sl[j - a] == line[j]);
    }
    assert(!is_ws(line[a + n - 1])) by {
        assert(tl.last() == line[a + n - 1]);
    }
    // The whole text: its leading whitespace is that of the first line.
    let x = line + seq!['\n'] + rest;
    assert forall|j: int| 0 <= j < a implies in_class(ws, #[trigger] x[j]) by {
        assert(x[j] == line[j]);
    }
    assert(x[a as int] == line[a as int]);
    lemma_lead_count_unique(x, ws, a);
    let sx = x.skip(a as int);
    lemma_trail_count_bound(sx, ws);
    let t = trim(x);
    assert(sx[n - 1] == line[a + n - 1]);
    assert(t.len() >= n);
    assert forall|j: int| 0 <= j < t.len() implies #[trigger] t[j] == x[a + j] by {
        assert(t[j] == sx[j]);
    }
    // Its first line ends at the newline after `line`, or where the trimmed text ends.
    let i: nat = if t.len() > line.len() - a {
        (line.len() - a) as nat
    } else {
        t.len()
    };
    assert forall|j: int| 0 <= j < i implies in_class(CharClass::NotChar('\n'), #[trigger] t[j]) by {
        assert(t[j] == line[a + j]);
        if line[a + j] == '\n' {
            assert(line.contains('\n'));
        }
    }
    if i < t.len() {
        assert(t[i as int] == x[line.len() as int]);
    }
    lemma_lead_count_unique(t, CharClass::NotChar('\n'), i);
    let u = t.take(i as int);
    assert forall|j: int| 0 <= j < u.len() implies #[trigger] u[j] == line[a + j] by {
        assert(u[j] == t[j]);
    }
    // Trimmed, that line is the trimmed first line.
    assert(u[0] == line[a as int]);
    lemma_lead_count_unique(u, ws, 0);
    assert(strip_start(u, ws) == u);
    assert forall|j: int| u.len() - (i - n) <= j < u.len() implies in_class(ws, #[trigger] u[j]) by {
        assert(u[j] == line[a + j]);
    }
    assert(u[u.len() - (i - n) - 1] == line[a + n - 1]);
    lemma_trail_count_unique(u, ws, (i - n) as nat);
    assert(trim(u) =~= tl);
    assert(first_nonblank_line(t) == Some(u));
    assert(kept_line(x) == tl);
    // The first line alone.
    lemma_strip_idempotent(line, ws);
    lemma_strip_chars(line, ws, '\n');
    lemma_single_line_kept_whole(tl);
    assert(kept_line(line) == tl);
}

} // verus!
