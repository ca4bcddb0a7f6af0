//! Reading what `yt-dlp` prints: file names and progress percentages.
use vstd::prelude::*;
use crate::config::{all_digits, digit_value, digits_value, is_digit};
use crate::history::opt_view;
use crate::text::{
    chars_of, concat_str, contains, owned, extend_str, find_char, find_sub, index_of, is_separator,
    in_class, is_quote, is_ws, lead_count, lemma_lead_count_unique, lemma_strip_subrange, lemma_trail_count_bound, scan_backward, split_first,
    split_first_range, split_second, split_second_range, str_contains, string_of, string_of_range,
    strip, strip_prefix_all, strip_prefix_all_range, strip_range, trail_count, trim, trim_range,
    CharClass,
};

verus! {

pub open spec fn is_ascii_alpha(c: char) -> bool {
    ('a' <= c && c <= 'z') || ('A' <= c && c <= 'Z')
}

/// The base name that `extract_filename_portably` finds in a path, if any.
///
/// Surrounding whitespace and quotes are removed, the text after the last `/` or `\`
/// is taken (or, for a drive-relative path such as `C:file.ext` with no separator,
/// the text after the drive prefix), and an empty name, `.` or `..` gives none.
pub open spec fn spec_extract_filename(p: Seq<char>) -> Option<Seq<char>> {
    let t = strip(trim(p), CharClass::Quote);
    if t.len() == 0 {
        None
    } else {
        let tail_len = trail_count(t, CharClass::NotSeparator);
        let seg = trim(t.skip(t.len() - tail_len));
        if seg.len() == 0 {
            None
        } else {
            let drive = t.len() >= 2 && is_ascii_alpha(t[0]) && t[1] == ':';
            let no_separator = tail_len == t.len();
            let name0 = if drive && no_separator {
                trim(t.skip(2))
            } else {
                seg
            };
            let name = trim(strip(name0, CharClass::Quote));
            if name.len() == 0 || name == seq!['.'] || name == seq!['.', '.'] {
                None
            } else {
                Some(name)
            }
        }
    }
}

fn is_ascii_alphabetic(c: char) -> (b: bool)
    ensures
        b == is_ascii_alpha(c),
{
    ('a' <= c && c <= 'z') || ('A' <= c && c <= 'Z')
}

/// `extract_filename_portably` on the characters `v[lo..hi]`; the name found is a
/// sub-range of them.
pub fn extract_filename_range(v: &Vec<char>, lo: usize, hi: usize) -> (r: Option<(usize, usize)>)
    requires
        lo <= hi <= v.len(),
    ensures
        match r {
            Some((a, b)) => lo <= a <= b <= hi && spec_extract_filename(
                v@.subrange(lo as int, hi as int),
            ) == Some(v@.subrange(a as int, b as int)),
            None => spec_extract_filename(v@.subrange(lo as int, hi as int)) is None,
        },
{
    let ghost p = v@.subrange(lo as int, hi as int);
    let (a0, b0) = trim_range(v, lo, hi);
    let (a, b) = strip_range(v, a0, b0, CharClass::Quote);
    let ghost t = v@.subrange(a as int, b as int);
    assert(t == strip(trim(p), CharClass::Quote));
    if a == b {
        return None;
    }
    let c = scan_backward(v, a, b, CharClass::NotSeparator);
    assert(v@.subrange(c as int, b as int) == t.skip(t.len() - trail_count(t, CharClass::NotSeparator)));
    let (s0, s1) = trim_range(v, c, b);
    if s0 == s1 {
        return None;
    }
    let drive = b - a >= 2 && is_ascii_alphabetic(v[a]) && v[a + 1] == ':';
    let no_separator = c == a;
    let (n0, n1) = if drive && no_separator {
        assert(v@.subrange(a + 2, b as int) == t.skip(2));
        trim_range(v, a + 2, b)
    } else {
        (s0, s1)
    };
    let (q0, q1) = strip_range(v, n0, n1, CharClass::Quote);
    let (m0, m1) = trim_range(v, q0, q1);
    let ghost name = v@.subrange(m0 as int, m1 as int);
    if m1 == m0 {
        return None;
    }
    if m1 - m0 == 1 && v[m0] == '.' {
        assert(name =~= seq!['.']);
        return None;
    }
    if m1 - m0 == 2 && v[m0] == '.' && v[m0 + 1] == '.' {
        assert(name =~= seq!['.', '.']);
        return None;
    }
    assert(name != seq!['.']) by {
        if name.len() == 1 {
            assert(name[0] == v@[m0 as int]);
        }
    }
    assert(name != seq!['.', '.']) by {
        if name.len() == 2 {
            assert(name[0] == v@[m0 as int]);
            assert(name[1] == v@[m0 + 1]);
        }
    }
    Some((m0, m1))
}

/// Extracts the base file name from a path string portably across Windows and Linux.
///
/// Handles both forward slash (`/`) and backslash (`\`) separators, surrounding quotes,
/// and Windows drive prefixes (e.g. `C:\path\file.ext` or `C:file.ext`).
pub fn extract_filename_portably(path_str: &str) -> (r: Option<String>)
    ensures
        match r {
            Some(name) => spec_extract_filename(path_str@) == Some(name@),
            None => spec_extract_filename(path_str@) is None,
        },
{
    let v = chars_of(path_str);
    assert(v@.subrange(0, v.len() as int) == v@);
    match extract_filename_range(&v, 0, v.len()) {
        Some((a, b)) => Some(string_of_range(&v, a, b)),
        None => None,
    }
}

/// The file name that `parse_ytdlp_filename` reads from a `yt-dlp` log line, if any.
///
/// Three kinds of lines name a file, tried in this order: `<path> has already been
/// downloaded`, `[Merger] Merging formats into <path>`, and `... Destination: <path>`.
pub open spec fn spec_parse_ytdlp_filename(line: Seq<char>) -> Option<Seq<char>> {
    let already = "has already been downloaded"@;
    let from_cached = if contains(line, already) {
        spec_extract_filename(trim(strip_prefix_all(split_first(line, already), "[download]"@)))
    } else {
        None
    };
    let from_merger = if contains(line, "[Merger]"@) {
        match split_second(line, "Merging formats into "@) {
            Some(dest) => spec_extract_filename(dest),
            None => None,
        }
    } else {
        None
    };
    let from_destination = if contains(line, "Destination:"@) {
        match split_second(line, "Destination:"@) {
            Some(dest) => spec_extract_filename(dest),
            None => None,
        }
    } else {
        None
    };
    if from_cached is Some {
        from_cached
    } else if from_merger is Some {
        from_merger
    } else {
        from_destination
    }
}

/// `parse_ytdlp_filename` on the characters of a line; the name is a sub-range of them.
pub fn parse_ytdlp_filename_chars(v: &Vec<char>) -> (r: Option<(usize, usize)>)
    ensures
        match r {
            Some((a, b)) => a <= b <= v.len() && spec_parse_ytdlp_filename(v@) == Some(
                v@.subrange(a as int, b as int),
            ),
            None => spec_parse_ytdlp_filename(v@) is None,
        },
{
    let n = v.len();
    assert(v@.subrange(0, n as int) == v@);
    let already = chars_of("has already been downloaded");
    let download_tag = chars_of("[download]");
    let merger_tag = chars_of("[Merger]");
    let merging_into = chars_of("Merging formats into ");
    let destination = chars_of("Destination:");

    if find_sub(v, 0, n, &already).is_some() {
        let end = split_first_range(v, 0, n, &already);
        let start = strip_prefix_all_range(v, 0, end, &download_tag);
        let (a, b) = trim_range(v, start, end);
        if let Some(name) = extract_filename_range(v, a, b) {
            return Some(name);
        }
    }
    if find_sub(v, 0, n, &merger_tag).is_some() {
        if let Some((a, b)) = split_second_range(v, 0, n, &merging_into) {
            if let Some(name) = extract_filename_range(v, a, b) {
                return Some(name);
            }
        }
    }
    if find_sub(v, 0, n, &destination).is_some() {
        if let Some((a, b)) = split_second_range(v, 0, n, &destination) {
            if let Some(name) = extract_filename_range(v, a, b) {
                return Some(name);
            }
        }
    }
    None
}

/// Extracts a discovered destination or merged filename from a yt-dlp log line.
pub fn parse_ytdlp_filename(line: &str) -> (r: Option<String>)
    ensures
        match r {
            Some(name) => spec_parse_ytdlp_filename(line@) == Some(name@),
            None => spec_parse_ytdlp_filename(line@) is None,
        },
{
    let v = chars_of(line);
    match parse_ytdlp_filename_chars(&v) {
        Some((a, b)) => Some(string_of_range(&v, a, b)),
        None => None,
    }
}

/// The pattern of a progress percentage in the output of `yt-dlp`, `curl` and
/// `wget`: a number with an optional fraction, followed by `%`.
pub open spec fn progress_pattern() -> Seq<char> {
    "(\\d+(?:\\.\\d+)?)%"@
}

/// What the first capture group of the regular expression `pattern` matches at its
/// first match in `text` (`None` when it does not match, or when `pattern` is not a
/// valid expression).
pub uninterp spec fn regex_first_group(pattern: Seq<char>, text: Seq<char>) -> Option<Seq<char>>;

/// Compiles `pattern` with `regex::Regex::new` and returns what
/// `Regex::captures(text)` gives for capture group 1, as an owned string. The
/// result is only named: the regular-expression semantics are the `regex` crate's.
#[verifier::external_body]
fn first_group(pattern: &str, text: &str) -> (r: Option<String>)
    ensures
        opt_view(r) == regex_first_group(pattern@, text@),
{
    let re = match regex::Regex::new(pattern) {
        Ok(re) => re,
        Err(_) => return None,
    };
    match re.captures(text) {
        Some(caps) => match caps.get(1) {
            Some(m) => Some(m.as_str().to_string()),
            None => None,
        },
        None => None,
    }
}

/// A full progress bar, in hundredths of a percent.
pub const FULL_PERCENT: u32 = 10000;

/// The hundredths that the first two digits of a fraction give.
pub open spec fn frac_hundredths(f: Seq<char>) -> nat {
    (if f.len() > 0 {
        digit_value(f[0]) * 10
    } else {
        0
    }) + (if f.len() > 1 {
        digit_value(f[1])
    } else {
        0
    })
}

/// The percentage that a captured number such as `45.8` denotes, in hundredths of
/// a percent (digits past the second of the fraction are dropped) and at most
/// `FULL_PERCENT`. `None` unless the text is ASCII digits with an optional `.`
/// followed by more digits.
pub open spec fn spec_percent(t: Seq<char>) -> Option<u32> {
    let dot = index_of(t, '.');
    let whole = t.take(dot as int);
    let frac = if dot < t.len() {
        t.skip(dot + 1int)
    } else {
        Seq::<char>::empty()
    };
    if whole.len() > 0 && all_digits(whole) && (dot == t.len() || (frac.len() > 0 && all_digits(
        frac,
    ))) {
        let v = digits_value(whole) * 100 + frac_hundredths(frac);
        Some(
            if v > FULL_PERCENT {
                FULL_PERCENT
            } else {
                v as u32
            },
        )
    } else {
        None
    }
}

/// Whether `v[lo..hi]` is all digits, and their value capped at 1000.
fn capped_digits(v: &Vec<char>, lo: usize, hi: usize) -> (r: Option<u32>)
    requires
        lo <= hi <= v.len(),
    ensures
        match r {
            Some(n) => all_digits(v@.subrange(lo as int, hi as int)) && n == vstd::math::min(
                digits_value(v@.subrange(lo as int, hi as int)) as int,
                1000,
            ),
            None => !all_digits(v@.subrange(lo as int, hi as int)),
        },
{
    let ghost d = v@.subrange(lo as int, hi as int);
    let mut acc: u32 = 0;
    let mut i = lo;
    while i < hi
        invariant
            lo <= i <= hi <= v.len(),
            d == v@.subrange(lo as int, hi as int),
            all_digits(d.take(i - lo)),
            acc == vstd::math::min(digits_value(d.take(i - lo)) as int, 1000),
        decreases hi - i,
    {
        let c = v[i];
        if !('0' <= c && c <= '9') {
            assert(!is_digit(d[i - lo]));
            return None;
        }
        let ghost k = i - lo;
        assert(d.take(k + 1).drop_last() == d.take(k));
        assert(d.take(k + 1).last() == c);
        let dv = (c as u32 - '0' as u32) as u32;
        assert(dv == digit_value(c));
        let next = acc * 10 + dv;
        acc = if next > 1000 {
            1000
        } else {
            next
        };
        i += 1;
    }
    assert(d.take(d.len() as int) == d);
    Some(acc)
}

/// Parses a captured percentage such as `45.8` into hundredths of a percent, at
/// most `FULL_PERCENT`.
pub fn parse_percent(captured: &str) -> (r: Option<u32>)
    ensures
        r == spec_percent(captured@),
{
    let v = chars_of(captured);
    let n = v.len();
    let dot = find_char(&v, 0, n, '.');
    assert(v@.subrange(0, n as int) == v@);
    assert(v@.subrange(0, dot as int) == v@.take(dot as int));
    if dot == 0 {
        return None;
    }
    let whole = match capped_digits(&v, 0, dot) {
        Some(w) => w,
        None => {
            return None;
        },
    };
    let mut frac: u32 = 0;
    if dot < n {
        assert(v@.subrange(dot + 1, n as int) == v@.skip(dot + 1));
        if dot + 1 == n {
            return None;
        }
        match capped_digits(&v, dot + 1, n) {
            Some(_) => {},
            None => {
                return None;
            },
        }
        let ghost f = v@.skip(dot + 1);
        assert(is_digit(f[0]));
        frac = (v[dot + 1] as u32 - '0' as u32) * 10;
        if dot + 2 < n {
            assert(is_digit(f[1]));
            frac = frac + (v[dot + 2] as u32 - '0' as u32);
        }
    }
    let total = whole * 100 + frac;
    if total > FULL_PERCENT {
        Some(FULL_PERCENT)
    } else {
        Some(total)
    }
}

/// The percentage (in hundredths, at most `FULL_PERCENT`) that a line of output
/// reports, if it reports one.
pub open spec fn spec_line_percent(line: Seq<char>) -> Option<u32> {
    match regex_first_group(progress_pattern(), line) {
        Some(t) => spec_percent(t),
        None => None,
    }
}

/// The percentage (in hundredths of a percent, at most `FULL_PERCENT`) that a
/// line of download output reports, if it reports one.
pub fn line_percent(line: &str) -> (r: Option<u32>)
    ensures
        r == spec_line_percent(line@),
{
    match first_group("(\\d+(?:\\.\\d+)?)%", line) {
        Some(t) => parse_percent(t.as_str()),
        None => None,
    }
}

/// Strong typed events emitted by background download tasks. Progress is in
/// hundredths of a percent.
#[derive(Debug, Clone)]
pub enum DownloadEvent {
    Progress { id: usize, track: u8, percent: u32 },
    Merging { id: usize },
    Success { id: usize },
    Error { id: usize, error: String },
    Log { id: usize, message: String },
    Filename { id: usize, name: String },
}

/// Progress reports are held back unless this many milliseconds passed since the
/// last one.
pub const PROGRESS_INTERVAL_MS: u64 = 150;

/// What a download task remembers between lines of `yt-dlp` output: the stream
/// being downloaded (1 for the first `Destination:` line) and the last percentage
/// it reported.
#[derive(Debug, Clone, Copy, PartialEq, Eq, Structural)]
pub struct ProgressTracker {
    pub current_track: u8,
    pub last_percent: Option<u32>,
}

/// What one line of `yt-dlp` output asks the download task to report, besides the
/// line itself as a log entry.
#[derive(Debug)]
pub struct LineReport {
    /// A file name the line names.
    pub filename: Option<String>,
    /// Whether merging started.
    pub merging: bool,
    /// A progress report: the stream and the percentage.
    pub progress: Option<(u8, u32)>,
}

/// Whether a new percentage is worth reporting: enough time passed, the whole
/// percent changed, or the download is complete.
pub open spec fn worth_reporting(last: Option<u32>, percent: u32, elapsed_ms: u64) -> bool {
    ||| elapsed_ms >= PROGRESS_INTERVAL_MS
    ||| match last {
        Some(l) => percent / 100 != l / 100,
        None => true,
    }
    ||| percent >= FULL_PERCENT
}

/// The stream a progress report names: the current one, or the first before any
/// `Destination:` line.
pub open spec fn reported_track(current: u8) -> u8 {
    if current == 0 {
        1
    } else {
        current
    }
}

/// Whether `u` and `r` are what `track_progress` makes of the tracker `t` for a
/// percentage read `elapsed_ms` after the last report.
pub open spec fn track_progress_effect(
    t: ProgressTracker,
    u: ProgressTracker,
    percent: u32,
    elapsed_ms: u64,
    r: Option<(u8, u32)>,
) -> bool {
    if worth_reporting(t.last_percent, percent, elapsed_ms) {
        &&& r == Some((reported_track(t.current_track), percent))
        &&& u == (ProgressTracker { last_percent: Some(percent), ..t })
    } else {
        r is None && u == t
    }
}

/// Whether `u` and `r` are what `process_line` makes of the tracker `t` for the
/// output line `line`, read `elapsed_ms` after the last progress report.
pub open spec fn process_line_effect(
    t: ProgressTracker,
    u: ProgressTracker,
    line: Seq<char>,
    elapsed_ms: u64,
    r: LineReport,
) -> bool {
    &&& opt_view(r.filename) == spec_parse_ytdlp_filename(line)
    &&& if contains(line, "[download] Destination:"@) {
        &&& !r.merging
        &&& r.progress is None
        &&& u == (ProgressTracker {
            current_track: if t.current_track < u8::MAX {
                (t.current_track + 1) as u8
            } else {
                u8::MAX
            },
            ..t
        })
    } else if contains(line, "[Merger]"@) {
        r.merging && r.progress is None && u == t
    } else {
        &&& !r.merging
        &&& match spec_line_percent(line) {
            Some(p) => if worth_reporting(t.last_percent, p, elapsed_ms) {
                &&& r.progress == Some((reported_track(t.current_track), p))
                &&& u == (ProgressTracker { last_percent: Some(p), ..t })
            } else {
                r.progress is None && u == t
            },
            None => r.progress is None && u == t,
        }
    }
}

impl ProgressTracker {
    pub fn new() -> (t: Self)
        ensures
            t.current_track == 0,
            t.last_percent is None,
    {
        ProgressTracker { current_track: 0, last_percent: None }
    }

    /// Takes a percentage read from a line, `elapsed_ms` after the last report, and
    /// says what to report, if anything.
    pub fn track_progress(&mut self, percent: u32, elapsed_ms: u64) -> (r: Option<(u8, u32)>)
        ensures
            track_progress_effect(*old(self), *final(self), percent, elapsed_ms, r),
    {
        let changed = match self.last_percent {
            Some(l) => percent / 100 != l / 100,
            None => true,
        };
        if elapsed_ms >= PROGRESS_INTERVAL_MS || changed || percent >= FULL_PERCENT {
            self.last_percent = Some(percent);
            let track = if self.current_track == 0 {
                1
            } else {
                self.current_track
            };
            Some((track, percent))
        } else {
            None
        }
    }

    /// Takes one line of `yt-dlp` output, `elapsed_ms` after the last progress
    /// report: a `[download] Destination:` line starts the next stream, a `[Merger]`
    /// line starts merging, and any other line may report progress.
    pub fn process_line(&mut self, line: &str, elapsed_ms: u64) -> (r: LineReport)
        ensures
            process_line_effect(*old(self), *final(self), line@, elapsed_ms, r),
    {
        let filename = parse_ytdlp_filename(line);
        if str_contains(line, "[download] Destination:") {
            self.current_track = self.current_track.saturating_add(1);
            return LineReport { filename, merging: false, progress: None };
        }
        if str_contains(line, "[Merger]") {
            return LineReport { filename, merging: true, progress: None };
        }
        let progress = match line_percent(line) {
            Some(p) => self.track_progress(p, elapsed_ms),
            None => None,
        };
        LineReport { filename, merging: false, progress }
    }
}

/// The error a failed `yt-dlp` run reports: its error output joined by ` | `, or
/// the exit status when it printed none.
pub open spec fn spec_error_summary(stderr_lines: Seq<Seq<char>>, status: Seq<char>) -> Seq<char> {
    if stderr_lines.len() == 0 {
        "yt-dlp process exited with status: "@ + status
    } else {
        joined(stderr_lines, " | "@)
    }
}

/// The lines joined with `sep` between each two.
pub open spec fn joined(lines: Seq<Seq<char>>, sep: Seq<char>) -> Seq<char>
    decreases lines.len(),
{
    if lines.len() == 0 {
        Seq::empty()
    } else if lines.len() == 1 {
        lines[0]
    } else {
        joined(lines.drop_last(), sep) + sep + lines.last()
    }
}

/// The error a failed `yt-dlp` run reports, given its error output and its exit
/// status as text.
pub fn error_summary(stderr_lines: &Vec<String>, status: &str) -> (r: String)
    ensures
        r@ == spec_error_summary(stderr_lines@.map_values(|s: String| s@), status@),
{
    let ghost lines = stderr_lines@.map_values(|s: String| s@);
    if stderr_lines.len() == 0 {
        return concat_str("yt-dlp process exited with status: ", status);
    }
    let mut out: Vec<char> = chars_of(stderr_lines[0].as_str());
    let mut i: usize = 1;
    assert(lines.take(1).drop_last() =~= Seq::<Seq<char>>::empty());
    while i < stderr_lines.len()
        invariant
            1 <= i <= stderr_lines@.len(),
            lines == stderr_lines@.map_values(|s: String| s@),
            out@ == joined(lines.take(i as int), " | "@),
        decreases stderr_lines@.len() - i,
    {
        extend_str(&mut out, " | ");
        extend_str(&mut out, stderr_lines[i].as_str());
        assert(lines.take(i + 1).drop_last() =~= lines.take(i as int));
        i += 1;
    }
    assert(lines.take(i as int) =~= lines);
    string_of(&out)
}

/// Whether no character of `s` is a path separator.
pub open spec fn has_no_separator(s: Seq<char>) -> bool {
    forall|i: int| 0 <= i < s.len() ==> !is_separator(#[trigger] s[i])
}

proof fn lemma_strip_keeps_no_separator(s: Seq<char>, k: CharClass)
    requires
        has_no_separator(s),
    ensures
        has_no_separator(strip(s, k)),
{
    lemma_strip_subrange(s, k);
    let l = lead_count(s, k) as int;
    let t = strip(s, k);
    assert forall|i: int| 0 <= i < t.len() implies !is_separator(#[trigger] t[i]) by {
        assert(t[i] == s[l + i]);
    }
}

/// What `extract_filename_portably` finds is a base name: not empty, free of path
/// separators, and neither `.` nor `..`.
pub proof fn lemma_extracted_name_is_base_name(p: Seq<char>)
    ensures
        spec_extract_filename(p) matches Some(n) ==> {
            &&& n.len() > 0
            &&& has_no_separator(n)
            &&& n != seq!['.']
            &&& n != seq!['.', '.']
        },
{
    let t = strip(trim(p), CharClass::Quote);
    if t.len() > 0 {
        let tail_len = trail_count(t, CharClass::NotSeparator);
        lemma_trail_count_bound(t, CharClass::NotSeparator);
        let tail = t.skip(t.len() - tail_len);
        assert forall|i: int| 0 <= i < tail.len() implies !is_separator(#[trigger] tail[i]) by {
            assert(tail[i] == t[t.len() - tail_len + i]);
        }
        lemma_strip_keeps_no_separator(tail, CharClass::Whitespace);
        let drive = t.len() >= 2 && is_ascii_alpha(t[0]) && t[1] == ':';
        let no_separator = tail_len == t.len();
        if drive && no_separator {
            let rest = t.skip(2);
            assert forall|i: int| 0 <= i < rest.len() implies !is_separator(#[trigger] rest[i]) by {
                assert(rest[i] == tail[i + 2]);
            }
            lemma_strip_keeps_no_separator(rest, CharClass::Whitespace);
        }
        let seg = trim(tail);
        let name0 = if drive && no_separator {
            trim(t.skip(2))
        } else {
            seg
        };
        lemma_strip_keeps_no_separator(name0, CharClass::Quote);
        lemma_strip_keeps_no_separator(strip(name0, CharClass::Quote), CharClass::Whitespace);
    }
}

/// The arguments `yt-dlp` is run with: the JavaScript runtime when Node.js is
/// available, overwriting and one progress line per update, file names valid on
/// Windows, no file times set from the server, the directory of `ffmpeg` when it
/// is known, the format (H.264 video with M4A audio, then any video with audio,
/// then MP4, then the best single file) merged into MP4, the output template and
/// the URL.
pub open spec fn spec_ytdlp_args(
    output_template: Seq<char>,
    url: Seq<char>,
    node: bool,
    ffmpeg_dir: Option<Seq<char>>,
) -> Seq<Seq<char>> {
    (if node {
        seq!["--js-runtimes"@, "node"@]
    } else {
        Seq::empty()
    }) + seq!["--force-overwrites"@, "--newline"@, "--windows-filenames"@, "--no-mtime"@] + (
    match ffmpeg_dir {
        Some(d) => seq!["--ffmpeg-location"@, d],
        None => Seq::empty(),
    }) + seq![
        "-f"@,
        "bestvideo[vcodec^=avc]+bestaudio[ext=m4a]/bestvideo+bestaudio/best[ext=mp4]/best"@,
        "--merge-output-format"@,
        "mp4"@,
        "-o"@,
        output_template,
        url,
    ]
}

/// Builds the command-line arguments for downloading `url` with `yt-dlp` to
/// `output_template`.
pub fn ytdlp_args(output_template: &str, url: &str, node: bool, ffmpeg_dir: Option<&str>) -> (r:
    Vec<String>)
    ensures
        r@.map_values(|s: String| s@) == spec_ytdlp_args(
            output_template@,
            url@,
            node,
            opt_str_view(ffmpeg_dir),
        ),
{
    let mut r: Vec<String> = Vec::new();
    if node {
        r.push(owned("--js-runtimes"));
        r.push(owned("node"));
    }
    let ghost head = r@.map_values(|s: String| s@);
    r.push(owned("--force-overwrites"));
    r.push(owned("--newline"));
    r.push(owned("--windows-filenames"));
    r.push(owned("--no-mtime"));
    assert(r@.map_values(|s: String| s@) =~= head + seq![
        "--force-overwrites"@,
        "--newline"@,
        "--windows-filenames"@,
        "--no-mtime"@,
    ]);
    let ghost mid = r@.map_values(|s: String| s@);
    if let Some(d) = ffmpeg_dir {
        r.push(owned("--ffmpeg-location"));
        r.push(owned(d));
    }
    assert(r@.map_values(|s: String| s@) =~= mid + match opt_str_view(ffmpeg_dir) {
        Some(d) => seq!["--ffmpeg-location"@, d],
        None => Seq::<Seq<char>>::empty(),
    });
    let ghost tail = r@.map_values(|s: String| s@);
    r.push(owned("-f"));
    r.push(owned("bestvideo[vcodec^=avc]+bestaudio[ext=m4a]/bestvideo+bestaudio/best[ext=mp4]/best"));
    r.push(owned("--merge-output-format"));
    r.push(owned("mp4"));
    r.push(owned("-o"));
    r.push(owned(output_template));
    r.push(owned(url));
    assert(r@.map_values(|s: String| s@) =~= tail + seq![
        "-f"@,
        "bestvideo[vcodec^=avc]+bestaudio[ext=m4a]/bestvideo+bestaudio/best[ext=mp4]/best"@,
        "--merge-output-format"@,
        "mp4"@,
        "-o"@,
        output_template@,
        url@,
    ]);
    r
}

/// The view of an optional string.
pub open spec fn opt_str_view(s: Option<&str>) -> Option<Seq<char>> {
    match s {
        Some(t) => Some(t@),
        None => None,
    }
}

/// A progress report names the stream being downloaded: the stream that the last
/// `Destination:` line started (the tracker's current track), or stream 1 before
/// any such line; and it carries the percentage as read.
pub proof fn lemma_progress_names_current_stream(
    t: ProgressTracker,
    u: ProgressTracker,
    percent: u32,
    elapsed_ms: u64,
    r: Option<(u8, u32)>,
)
    requires
        track_progress_effect(t, u, percent, elapsed_ms, r),
        r is Some,
    ensures
        t.current_track > 0 ==> r->Some_0.0 == t.current_track,
        t.current_track == 0 ==> r->Some_0.0 == 1,
        r->Some_0.1 == percent,
        u.current_track == t.current_track,
        u.last_percent == Some(percent),
{
}

/// After a `Destination:` line, the next progress report of the download names the
/// stream that line started: one past the stream before it (stream 2, the audio,
/// after the video's stream 1), up to the last stream number a `u8` holds.
pub proof fn lemma_destination_starts_next_stream(
    t0: ProgressTracker,
    t1: ProgressTracker,
    t2: ProgressTracker,
    dest: Seq<char>,
    line: Seq<char>,
    e1: u64,
    e2: u64,
    r1: LineReport,
    r2: LineReport,
)
    requires
        contains(dest, "[download] Destination:"@),
        process_line_effect(t0, t1, dest, e1, r1),
        process_line_effect(t1, t2, line, e2, r2),
        r2.progress is Some,
    ensures
        r1.progress is None,
        t0.current_track < u8::MAX ==> r2.progress->Some_0.0 == t0.current_track + 1,
        t0.current_track == u8::MAX ==> r2.progress->Some_0.0 == u8::MAX,
        t2.current_track == t1.current_track,
{
}

/// Progress is throttled: a percentage is reported exactly when at least 150 ms
/// passed since the last report, the whole percent changed (or nothing was
/// reported yet), or the download is complete; an unreported one leaves the
/// tracker as it was.
pub proof fn lemma_progress_throttle(
    t: ProgressTracker,
    u: ProgressTracker,
    percent: u32,
    elapsed_ms: u64,
    r: Option<(u8, u32)>,
)
    requires
        track_progress_effect(t, u, percent, elapsed_ms, r),
    ensures
        r is Some <==> (elapsed_ms >= 150 || percent >= 10000 || match t.last_percent {
            Some(l) => percent / 100 != l / 100,
            None => true,
        }),
        r is None ==> u == t,
{
}

/// A percentage written as whole digits, optionally with a point and one more
/// digit, reads as that many hundredths of a percent (`40.5` as 4050, `7` as 700),
/// capped at 100% (10000).
pub proof fn lemma_percent_reads_digits(whole: Seq<char>, tenth: char)
    requires
        whole.len() > 0,
        all_digits(whole),
        is_digit(tenth),
    ensures
        spec_percent(whole) == Some(
            if digits_value(whole) * 100 > 10000 {
                10000u32
            } else {
                (digits_value(whole) * 100) as u32
            },
        ),
        spec_percent(whole + seq!['.', tenth]) == Some(
            if digits_value(whole) * 100 + digit_value(tenth) * 10 > 10000 {
                10000u32
            } else {
                (digits_value(whole) * 100 + digit_value(tenth) * 10) as u32
            },
        ),
{
    let k = CharClass::NotChar('.');
    assert forall|i: int| 0 <= i < whole.len() implies in_class(k, #[trigger] whole[i]) by {
        assert(is_digit(whole[i]));
    }
    lemma_lead_count_unique(whole, k, whole.len());
    assert(whole.take(whole.len() as int) == whole);
    let t = whole + seq!['.', tenth];
    assert forall|i: int| 0 <= i < whole.len() implies in_class(k, #[trigger] t[i]) by {
        assert(t[i] == whole[i]);
        assert(is_digit(whole[i]));
    }
    lemma_lead_count_unique(t, k, whole.len());
    assert(t.take(whole.len() as int) == whole);
    assert(t.skip(whole.len() + 1int) == seq![tenth]);
}

/// The file name found in a path is the part after its last separator (`/` or
/// `\`): for a directory part, a separator and a plain base name (no separator
/// in it, no whitespace or quote at either end, neither `.` nor `..`), it is that
/// base name.
pub proof fn lemma_extract_filename_takes_base_name(dir: Seq<char>, sep: char, name: Seq<char>)
    requires
        is_separator(sep),
        name.len() > 0,
        has_no_separator(name),
        !is_ws(name[0]) && !is_quote(name[0]),
        !is_ws(name.last()) && !is_quote(name.last()),
        name != seq!['.'],
        name != seq!['.', '.'],
        dir.len() > 0 ==> !is_ws(dir[0]) && !is_quote(dir[0]),
    ensures
        spec_extract_filename(dir + seq![sep] + name) == Some(name),
{
    let p = dir + seq![sep] + name;
    assert(p.last() == name.last());
    if dir.len() == 0 {
        assert(p[0] == sep);
    } else {
        assert(p[0] == dir[0]);
    }
    crate::text::lemma_strip_fixed(p, CharClass::Whitespace);
    crate::text::lemma_strip_fixed(p, CharClass::Quote);
    let t = p;
    assert forall|j: int| t.len() - name.len() <= j < t.len() implies in_class(
        CharClass::NotSeparator,
        #[trigger] t[j],
    ) by {
        assert(t[j] == name[j - (t.len() - name.len())]);
    }
    assert(t[t.len() - name.len() - 1] == sep);
    crate::text::lemma_trail_count_unique(t, CharClass::NotSeparator, name.len());
    assert(t.skip(t.len() - name.len()) == name);
    crate::text::lemma_strip_fixed(name, CharClass::Whitespace);
    crate::text::lemma_strip_fixed(name, CharClass::Quote);
}

} // verus!
