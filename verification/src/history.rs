//! Download history entries and their FIFO limit.
use vstd::prelude::*;
use crate::config::{all_digits, digits_value};

verus! {

/// Status of a historical download attempt.
#[derive(Debug, Clone, Copy, PartialEq, Eq, Structural)]
pub enum HistoryStatus {
    Completed,
    Failed,
}

impl HistoryStatus {
    pub fn label(&self) -> (r: &'static str)
        ensures
            r@ == match self {
                HistoryStatus::Completed => "Completed"@,
                HistoryStatus::Failed => "Failed"@,
            },
    {
        match self {
            HistoryStatus::Completed => "Completed",
            HistoryStatus::Failed => "Failed",
        }
    }
}

/// A recorded historical download entry persisted across application sessions.
#[derive(Debug, Clone, PartialEq, Eq)]
pub struct HistoryEntry {
    pub id: usize,
    pub url: String,
    pub title: Option<String>,
    pub file_path: Option<String>,
    pub status: HistoryStatus,
    pub timestamp: String,
    pub error_message: Option<String>,
}

pub open spec fn opt_view(o: Option<String>) -> Option<Seq<char>> {
    match o {
        Some(s) => Some(s@),
        None => None,
    }
}

/// The mathematical content of a history entry.
pub struct HistoryEntryView {
    pub id: usize,
    pub url: Seq<char>,
    pub title: Option<Seq<char>>,
    pub file_path: Option<Seq<char>>,
    pub status: HistoryStatus,
    pub timestamp: Seq<char>,
    pub error_message: Option<Seq<char>>,
}

impl View for HistoryEntry {
    type V = HistoryEntryView;

    open spec fn view(&self) -> HistoryEntryView {
        HistoryEntryView {
            id: self.id,
            url: self.url@,
            title: opt_view(self.title),
            file_path: opt_view(self.file_path),
            status: self.status,
            timestamp: self.timestamp@,
            error_message: opt_view(self.error_message),
        }
    }
}

/// The two-digit field of `s` that starts at `i`, when both its characters are
/// digits and its value lies in `lo..=hi`.
pub open spec fn two_digit_field(s: Seq<char>, i: int, lo: nat, hi: nat) -> bool {
    let f = s.subrange(i, i + 2);
    all_digits(f) && lo <= digits_value(f) <= hi
}

/// Whether `s` reads as a local time in the form `%Y-%m-%d %H:%M:%S`: a year of at
/// least four digits (with a sign before years outside 0..=9999), then the month
/// (01-12), the day (01-31), the hour (00-23), the minute (00-59) and the second
/// (00-60, for a leap second), each of two digits.
pub open spec fn is_timestamp(s: Seq<char>) -> bool {
    let n = s.len() as int;
    let year = s.take(n - 15);
    &&& n >= 19
    &&& (all_digits(year) || ((year[0] == '+' || year[0] == '-') && year.len() >= 5 && all_digits(
        year.skip(1),
    )))
    &&& s[n - 15] == '-'
    &&& two_digit_field(s, n - 14, 1, 12)
    &&& s[n - 12] == '-'
    &&& two_digit_field(s, n - 11, 1, 31)
    &&& s[n - 9] == ' '
    &&& two_digit_field(s, n - 8, 0, 23)
    &&& s[n - 6] == ':'
    &&& two_digit_field(s, n - 5, 0, 59)
    &&& s[n - 3] == ':'
    &&& two_digit_field(s, n - 2, 0, 60)
}

/// Formats the current local time as "YYYY-MM-DD HH:MM:SS".
///
/// Calls `chrono::Local::now()` and formats it with `%Y-%m-%d %H:%M:%S`. Which time
/// it shows depends on the clock and the machine's time zone and is not stated;
/// the contract claims only the shape that chrono documents for those fields.
#[verifier::external_body]
pub fn current_timestamp() -> (t: String)
    ensures
        is_timestamp(t@),
{
    chrono::Local::now().format("%Y-%m-%d %H:%M:%S").to_string()
}

impl HistoryEntry {
    /// Creates a new completed download history entry with the current local timestamp.
    pub fn new_completed(id: usize, url: String, title: Option<String>, file_path: Option<String>) -> (e:
        Self)
        ensures
            e.id == id,
            e.url == url,
            e.title == title,
            e.file_path == file_path,
            e.status == HistoryStatus::Completed,
            e.error_message is None,
            is_timestamp(e.timestamp@),
    {
        HistoryEntry {
            id,
            url,
            title,
            file_path,
            status: HistoryStatus::Completed,
            timestamp: current_timestamp(),
            error_message: None,
        }
    }

    /// Creates a new failed download history entry with the current local timestamp.
    pub fn new_failed(
        id: usize,
        url: String,
        title: Option<String>,
        file_path: Option<String>,
        error_message: String,
    ) -> (e: Self)
        ensures
            e.id == id,
            e.url == url,
            e.title == title,
            e.file_path == file_path,
            e.status == HistoryStatus::Failed,
            e.error_message == Some(error_message),
            is_timestamp(e.timestamp@),
    {
        HistoryEntry {
            id,
            url,
            title,
            file_path,
            status: HistoryStatus::Failed,
            timestamp: current_timestamp(),
            error_message: Some(error_message),
        }
    }
}

/// The entries that pruning to `limit` keeps: the first (newest) `limit` of them.
pub open spec fn spec_prune<T>(entries: Seq<T>, limit: usize) -> Seq<T> {
    if entries.len() > limit {
        entries.take(limit as int)
    } else {
        entries
    }
}

/// Prunes history entries to ensure the total count does not exceed `limit`.
/// Operates in FIFO order: newest entries are assumed to be at index 0, so oldest
/// entries at the tail are truncated.
pub fn prune_history(entries: &mut Vec<HistoryEntry>, limit: usize)
    ensures
        final(entries)@ == spec_prune(old(entries)@, limit),
        final(entries)@.len() <= limit,
{
    if entries.len() > limit {
        entries.truncate(limit);
    }
}

} // verus!
