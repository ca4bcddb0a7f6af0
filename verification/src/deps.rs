//! The external tools Vidown needs, where they are found, and how setup reports on them.
use vstd::prelude::*;
use crate::downloader::{line_percent, spec_line_percent};
use crate::app::concat3;
use crate::text::{
    replace_char, replace_char_str, char_count, concat_str, eq_ignore_ascii_case, owned, str_ends_with, str_eq, str_eq_ignore_ascii_case,
    str_starts_with_char, string_of_range, trim, trim_range,
};

verus! {

/// The set of external dependencies Vidown requires to function properly.
#[derive(Debug, Clone, Copy, PartialEq, Eq, Hash, Structural)]
pub enum RequiredTool {
    YtDlp,
    Ffmpeg,
    Node,
}

pub open spec fn spec_tool_id(t: RequiredTool) -> Seq<char> {
    match t {
        RequiredTool::YtDlp => "yt-dlp"@,
        RequiredTool::Ffmpeg => "ffmpeg"@,
        RequiredTool::Node => "node"@,
    }
}

pub open spec fn spec_tool_display_name(t: RequiredTool) -> Seq<char> {
    match t {
        RequiredTool::YtDlp => "yt-dlp (Media & metadata extractor)"@,
        RequiredTool::Ffmpeg => "ffmpeg & ffprobe (Audio/video multiplexer)"@,
        RequiredTool::Node => "node (JavaScript engine for YouTube n-sig)"@,
    }
}

impl RequiredTool {
    pub fn all() -> (r: Vec<RequiredTool>)
        ensures
            r@ == seq![RequiredTool::YtDlp, RequiredTool::Ffmpeg, RequiredTool::Node],
    {
        let mut v = Vec::new();
        v.push(RequiredTool::YtDlp);
        v.push(RequiredTool::Ffmpeg);
        v.push(RequiredTool::Node);
        v
    }

    pub fn id(&self) -> (r: &'static str)
        ensures
            r@ == spec_tool_id(*self),
    {
        match self {
            RequiredTool::YtDlp => "yt-dlp",
            RequiredTool::Ffmpeg => "ffmpeg",
            RequiredTool::Node => "node",
        }
    }

    pub fn display_name(&self) -> (r: &'static str)
        ensures
            r@ == spec_tool_display_name(*self),
    {
        match self {
            RequiredTool::YtDlp => "yt-dlp (Media & metadata extractor)",
            RequiredTool::Ffmpeg => "ffmpeg & ffprobe (Audio/video multiplexer)",
            RequiredTool::Node => "node (JavaScript engine for YouTube n-sig)",
        }
    }
}

/// Discovered location for an external dependency (the path of the executable).
#[derive(Debug, Clone, PartialEq, Eq)]
pub enum ToolLocation {
    SystemPath(String),
    LocalBin(String),
    Missing,
}

/// Status of an individual tool during onboarding/setup. Download progress is in
/// hundredths of a percent (`0..=10000`).
#[derive(Debug, Clone, PartialEq, Eq)]
pub enum ToolSetupStatus {
    Checking,
    Found(String),
    PendingDownload,
    Downloading { percent: u32 },
    Extracting,
    Installed,
    Failed(String),
}

/// The mathematical content of a tool's setup status.
pub enum ToolSetupStatusView {
    Checking,
    Found(Seq<char>),
    PendingDownload,
    Downloading { percent: u32 },
    Extracting,
    Installed,
    Failed(Seq<char>),
}

impl View for ToolSetupStatus {
    type V = ToolSetupStatusView;

    open spec fn view(&self) -> ToolSetupStatusView {
        match self {
            ToolSetupStatus::Checking => ToolSetupStatusView::Checking,
            ToolSetupStatus::Found(s) => ToolSetupStatusView::Found(s@),
            ToolSetupStatus::PendingDownload => ToolSetupStatusView::PendingDownload,
            ToolSetupStatus::Downloading { percent } => ToolSetupStatusView::Downloading {
                percent: *percent,
            },
            ToolSetupStatus::Extracting => ToolSetupStatusView::Extracting,
            ToolSetupStatus::Installed => ToolSetupStatusView::Installed,
            ToolSetupStatus::Failed(s) => ToolSetupStatusView::Failed(s@),
        }
    }
}

/// Strong-typed events emitted by the background dependency setup worker.
#[derive(Debug, Clone)]
pub enum SetupEvent {
    ToolStatus { tool: &'static str, status: ToolSetupStatus },
    Progress { tool: &'static str, percent: u32 },
    Complete,
    Error { tool: &'static str, error: String },
}

/// The file names under which a binary is looked for: on Windows its `.exe`,
/// plain, `.cmd` and `.bat` forms (just the name when it already ends in `.exe`),
/// elsewhere just the name.
pub open spec fn spec_binary_candidates(bin_name: Seq<char>, windows: bool) -> Seq<Seq<char>> {
    if windows && !(bin_name.len() >= 4 && bin_name.skip(bin_name.len() - 4) == ".exe"@) {
        seq![bin_name + ".exe"@, bin_name, bin_name + ".cmd"@, bin_name + ".bat"@]
    } else {
        seq![bin_name]
    }
}

/// Returns filename candidates for a binary on the platform (`windows` or not).
pub fn binary_candidates(bin_name: &str, windows: bool) -> (r: Vec<String>)
    ensures
        r@.map_values(|s: String| s@) == spec_binary_candidates(bin_name@, windows),
{
    proof {
        reveal_strlit(".exe");
    }
    let mut r: Vec<String> = Vec::new();
    if windows && !str_ends_with(bin_name, ".exe") {
        r.push(concat_str(bin_name, ".exe"));
        r.push(owned(bin_name));
        r.push(concat_str(bin_name, ".cmd"));
        r.push(concat_str(bin_name, ".bat"));
    } else {
        r.push(owned(bin_name));
    }
    assert(r@.map_values(|s: String| s@) =~= spec_binary_candidates(bin_name@, windows));
    r
}

/// Where one binary was found: the executable found in a directory of `PATH`, and
/// the one found in Vidown's own bin directory.
#[derive(Debug, Clone)]
pub struct BinaryLookup {
    pub in_path: Option<String>,
    pub in_user_bin: Option<String>,
}

/// Where a tool is taken to be, given where its binary (and, for ffmpeg, the
/// ffprobe binary that it needs as well) was found: `PATH` first, then the local
/// bin directory.
pub open spec fn spec_check_tool(tool: RequiredTool, main: BinaryLookup, probe: BinaryLookup) -> ToolLocation {
    match tool {
        RequiredTool::Ffmpeg => {
            let ffmpeg = match main.in_path {
                Some(p) => Some(p),
                None => main.in_user_bin,
            };
            let ffprobe_found = probe.in_path is Some || probe.in_user_bin is Some;
            match ffmpeg {
                Some(p) => if ffprobe_found {
                    if main.in_path is Some {
                        ToolLocation::SystemPath(p)
                    } else {
                        ToolLocation::LocalBin(p)
                    }
                } else {
                    ToolLocation::Missing
                },
                None => ToolLocation::Missing,
            }
        },
        _ => match main.in_path {
            Some(p) => ToolLocation::SystemPath(p),
            None => match main.in_user_bin {
                Some(p) => ToolLocation::LocalBin(p),
                None => ToolLocation::Missing,
            },
        },
    }
}

/// Decides where a required tool is, given the lookups of its binary (`main`) and,
/// for ffmpeg, of `ffprobe` (`probe`, unused for the other tools).
pub fn check_tool(tool: RequiredTool, main: BinaryLookup, probe: BinaryLookup) -> (r: ToolLocation)
    ensures
        r == spec_check_tool(tool, main, probe),
{
    match tool {
        RequiredTool::Ffmpeg => {
            let from_path = main.in_path.is_some();
            let ffprobe_found = probe.in_path.is_some() || probe.in_user_bin.is_some();
            let ffmpeg = match main.in_path {
                Some(p) => Some(p),
                None => main.in_user_bin,
            };
            match ffmpeg {
                Some(p) => if ffprobe_found {
                    if from_path {
                        ToolLocation::SystemPath(p)
                    } else {
                        ToolLocation::LocalBin(p)
                    }
                } else {
                    ToolLocation::Missing
                },
                None => ToolLocation::Missing,
            }
        },
        _ => match main.in_path {
            Some(p) => ToolLocation::SystemPath(p),
            None => match main.in_user_bin {
                Some(p) => ToolLocation::LocalBin(p),
                None => ToolLocation::Missing,
            },
        },
    }
}

/// Lists every required tool with its location, and whether none is missing.
pub fn check_all_dependencies(yt_dlp: ToolLocation, ffmpeg: ToolLocation, node: ToolLocation) -> (r: (
    bool,
    Vec<(RequiredTool, ToolLocation)>,
))
    ensures
        r.1@ == seq![
            (RequiredTool::YtDlp, yt_dlp),
            (RequiredTool::Ffmpeg, ffmpeg),
            (RequiredTool::Node, node),
        ],
        r.0 == !(yt_dlp is Missing || ffmpeg is Missing || node is Missing),
{
    let all_ok = !(matches!(yt_dlp, ToolLocation::Missing) || matches!(ffmpeg, ToolLocation::Missing)
        || matches!(node, ToolLocation::Missing));
    let mut results: Vec<(RequiredTool, ToolLocation)> = Vec::new();
    results.push((RequiredTool::YtDlp, yt_dlp));
    results.push((RequiredTool::Ffmpeg, ffmpeg));
    results.push((RequiredTool::Node, node));
    (all_ok, results)
}

/// The executable to run for a binary: the one in the local bin directory when
/// there is one, otherwise the bare name for a `PATH` lookup.
pub fn resolve_binary(bin_name: &str, in_user_bin: Option<String>) -> (r: String)
    ensures
        r@ == match in_user_bin {
            Some(p) => p@,
            None => bin_name@,
        },
{
    match in_user_bin {
        Some(p) => p,
        None => owned(bin_name),
    }
}

/// Whether a file name is the binary `target` (or `target.exe`); on Windows ASCII
/// letters compare without case.
pub open spec fn spec_file_name_matches(name: Seq<char>, target: Seq<char>, windows: bool) -> bool {
    if windows {
        eq_ignore_ascii_case(name, target) || eq_ignore_ascii_case(name, target + ".exe"@)
    } else {
        name == target || name == target + ".exe"@
    }
}

/// Whether a file found while searching an extracted archive is the binary `target`.
pub fn file_name_matches(name: &str, target: &str, windows: bool) -> (r: bool)
    ensures
        r == spec_file_name_matches(name@, target@, windows),
{
    let with_exe = concat_str(target, ".exe");
    if windows {
        str_eq_ignore_ascii_case(name, target) || str_eq_ignore_ascii_case(name, with_exe.as_str())
    } else {
        str_eq(name, target) || str_eq(name, with_exe.as_str())
    }
}

/// How many levels below the root of an extracted archive the search for a binary
/// reads directories.
pub const MAX_SEARCH_DEPTH: usize = 10;

/// One entry of a directory listing: its full path, its file name, and whether it
/// is a regular file or a directory.
#[derive(Debug, Clone)]
pub struct ListedEntry {
    pub path: String,
    pub name: String,
    pub is_file: bool,
    pub is_dir: bool,
}

/// Whether a listed entry is a file named as the binary `target`.
pub open spec fn entry_matches(e: ListedEntry, target: Seq<char>, windows: bool) -> bool {
    e.is_file && spec_file_name_matches(e.name@, target, windows)
}

/// The subdirectories of a listing, in listing order, each at `depth`.
pub open spec fn listed_subdirs(listing: Seq<ListedEntry>, depth: usize) -> Seq<(String, usize)>
    decreases listing.len(),
{
    if listing.len() == 0 {
        Seq::empty()
    } else {
        let e = listing.last();
        let rest = listed_subdirs(listing.drop_last(), depth);
        if !e.is_file && e.is_dir {
            rest.push((e.path, depth))
        } else {
            rest
        }
    }
}

/// A depth-first search for a binary below a root directory, read one directory
/// at a time: the directories still to read, front first, each with its depth
/// below the root.
#[derive(Debug)]
pub struct BinarySearch {
    pub pending: Vec<(String, usize)>,
}

/// Whether every directory left to read lies at most `MAX_SEARCH_DEPTH` levels
/// below the root.
pub open spec fn search_within_depth(s: BinarySearch) -> bool {
    forall|k: int| 0 <= k < s.pending@.len() ==> #[trigger] s.pending@[k].1 <= MAX_SEARCH_DEPTH
}

/// What reading the front directory of `s`, listed as `listing`, does: the path
/// `r` of the first listed file named as `target`, with nothing else changed;
/// or, when there is none, the front directory gives way to its subdirectories,
/// in order and one level deeper, unless it lies `MAX_SEARCH_DEPTH` levels down.
pub open spec fn search_step_effect(
    s: BinarySearch,
    t: BinarySearch,
    listing: Seq<ListedEntry>,
    target: Seq<char>,
    windows: bool,
    r: Option<String>,
) -> bool {
    let depth = s.pending@[0].1;
    match r {
        Some(p) => {
            &&& exists|i: int|
                0 <= i < listing.len() && entry_matches(#[trigger] listing[i], target, windows) && (
                forall|j: int| 0 <= j < i ==> !entry_matches(#[trigger] listing[j], target, windows))
                && p == listing[i].path
            &&& t.pending@ == s.pending@
        },
        None => {
            &&& forall|i: int| 0 <= i < listing.len() ==> !entry_matches(#[trigger] listing[i], target, windows)
            &&& t.pending@ == (if depth < MAX_SEARCH_DEPTH {
                listed_subdirs(listing, (depth + 1) as usize)
            } else {
                Seq::empty()
            }) + s.pending@.skip(1)
        },
    }
}

proof fn lemma_listed_subdirs_depth(listing: Seq<ListedEntry>, depth: usize)
    ensures
        forall|k: int| 0 <= k < listed_subdirs(listing, depth).len() ==> #[trigger] listed_subdirs(listing, depth)[k].1 == depth,
    decreases listing.len(),
{
    if listing.len() > 0 {
        let rest = listed_subdirs(listing.drop_last(), depth);
        lemma_listed_subdirs_depth(listing.drop_last(), depth);
        let all = listed_subdirs(listing, depth);
        assert forall|k: int| 0 <= k < all.len() implies #[trigger] all[k].1 == depth by {
            if k < rest.len() {
                assert(all[k] == rest[k]);
            }
        }
    }
}

impl BinarySearch {
    /// A search that has only the root left to read.
    pub fn new(root: String) -> (s: Self)
        ensures
            s.pending@.len() == 1,
            s.pending@[0].0@ == root@,
            s.pending@[0].1 == 0,
            search_within_depth(s),
    {
        BinarySearch { pending: vec![(root, 0)] }
    }

    /// Takes the listing, in read order, of the directory at the front of
    /// `pending`, and returns the path of the binary `target` if the listing holds
    /// it (see `search_step_effect`). A search that stays within the depth bound
    /// stays within it.
    pub fn step(&mut self, listing: &Vec<ListedEntry>, target: &str, windows: bool) -> (r: Option<String>)
        requires
            old(self).pending@.len() > 0,
        ensures
            search_step_effect(*old(self), *final(self), listing@, target@, windows, r),
            search_within_depth(*old(self)) ==> search_within_depth(*final(self)),
    {
        let depth = self.pending[0].1;
        let mut subdirs: Vec<(String, usize)> = Vec::new();
        let mut i: usize = 0;
        while i < listing.len()
            invariant
                i <= listing.len(),
                forall|j: int| 0 <= j < i ==> !entry_matches(#[trigger] listing@[j], target@, windows),
                depth < MAX_SEARCH_DEPTH ==> subdirs@ == listed_subdirs(listing@.take(i as int), (depth + 1) as usize),
                depth >= MAX_SEARCH_DEPTH ==> subdirs@.len() == 0,
            decreases listing.len() - i,
        {
            let e = &listing[i];
            assert(listing@.take(i + 1).drop_last() == listing@.take(i as int));
            if e.is_file {
                if file_name_matches(e.name.as_str(), target, windows) {
                    return Some(e.path.clone());
                }
            } else if e.is_dir && depth < MAX_SEARCH_DEPTH {
                subdirs.push((e.path.clone(), depth + 1));
            }
            i = i + 1;
        }
        assert(listing@.take(listing.len() as int) == listing@);
        let ghost before = self.pending@;
        self.pending.remove(0);
        subdirs.append(&mut self.pending);
        self.pending = subdirs;
        proof {
            assert(before.remove(0) == before.skip(1));
            if depth < MAX_SEARCH_DEPTH {
                lemma_listed_subdirs_depth(listing@, (depth + 1) as usize);
            }
            if search_within_depth(*old(self)) {
                let n = listed_subdirs(listing@, (depth + 1) as usize).len();
                assert forall|k: int| 0 <= k < self.pending@.len() implies #[trigger] self.pending@[k].1
                    <= MAX_SEARCH_DEPTH by {
                    if depth < MAX_SEARCH_DEPTH && k < n {
                        assert(listed_subdirs(listing@, (depth + 1) as usize)[k].1 == depth + 1);
                    } else if depth < MAX_SEARCH_DEPTH {
                        assert(self.pending@[k] == before[k - n + 1]);
                    } else {
                        assert(self.pending@[k] == before[k + 1]);
                    }
                }
            }
        }
        None
    }
}

/// A binary that a search finds lies at most `MAX_SEARCH_DEPTH + 1` levels below
/// the root: it is listed in a directory that the search read, and a search that
/// starts at the root reads no directory more than `MAX_SEARCH_DEPTH` levels down.
pub proof fn lemma_found_within_depth(
    s: BinarySearch,
    t: BinarySearch,
    listing: Seq<ListedEntry>,
    target: Seq<char>,
    windows: bool,
    found: String,
)
    requires
        search_within_depth(s),
        s.pending@.len() > 0,
        search_step_effect(s, t, listing, target, windows, Some(found)),
    ensures
        s.pending@[0].1 + 1 <= MAX_SEARCH_DEPTH + 1,
        search_within_depth(t),
{
}

/// Information needed to fetch and install a binary or archive for a tool.
#[derive(Debug, Clone)]
pub struct ToolDownloadSpec {
    pub tool: RequiredTool,
    pub urls: Vec<&'static str>,
    pub is_archive: bool,
    /// `"zip"`, `"tar.xz"`, `"tar.gz"` or `"tar"`.
    pub archive_format: Option<&'static str>,
    pub target_binaries: Vec<&'static str>,
}

/// The mathematical content of a download specification.
pub struct ToolDownloadSpecView {
    pub tool: RequiredTool,
    pub urls: Seq<Seq<char>>,
    pub is_archive: bool,
    pub archive_format: Option<Seq<char>>,
    pub target_binaries: Seq<Seq<char>>,
}

pub open spec fn strs_view(v: Vec<&'static str>) -> Seq<Seq<char>> {
    v@.map_values(|s: &'static str| s@)
}

impl View for ToolDownloadSpec {
    type V = ToolDownloadSpecView;

    open spec fn view(&self) -> ToolDownloadSpecView {
        ToolDownloadSpecView {
            tool: self.tool,
            urls: strs_view(self.urls),
            is_archive: self.is_archive,
            archive_format: match self.archive_format {
                Some(f) => Some(f@),
                None => None,
            },
            target_binaries: strs_view(self.target_binaries),
        }
    }
}

/// Where each tool is fetched from, on Windows (`windows`) or on Linux and other
/// Unix-like systems.
pub open spec fn spec_download_specs(windows: bool) -> Seq<ToolDownloadSpecView> {
    if windows {
        seq![
            ToolDownloadSpecView {
                tool: RequiredTool::YtDlp,
                urls: seq!["https://github.com/yt-dlp/yt-dlp/releases/latest/download/yt-dlp.exe"@],
                is_archive: false,
                archive_format: None,
                target_binaries: seq!["yt-dlp.exe"@],
            },
            ToolDownloadSpecView {
                tool: RequiredTool::Ffmpeg,
                urls: seq![
                    "https://github.com/yt-dlp/FFmpeg-Builds/releases/download/latest/ffmpeg-master-latest-win64-gpl.zip"@,
                    "https://github.com/BtbN/FFmpeg-Builds/releases/download/latest/ffmpeg-master-latest-win64-gpl.zip"@,
                    "https://www.gyan.dev/ffmpeg/builds/ffmpeg-release-essentials.zip"@,
                ],
                is_archive: true,
                archive_format: Some("zip"@),
                target_binaries: seq!["ffmpeg.exe"@, "ffprobe.exe"@],
            },
            ToolDownloadSpecView {
                tool: RequiredTool::Node,
                urls: seq!["https://nodejs.org/dist/v20.18.0/win-x64/node.exe"@],
                is_archive: false,
                archive_format: None,
                target_binaries: seq!["node.exe"@],
            },
        ]
    } else {
        seq![
            ToolDownloadSpecView {
                tool: RequiredTool::YtDlp,
                urls: seq!["https://github.com/yt-dlp/yt-dlp/releases/latest/download/yt-dlp"@],
                is_archive: false,
                archive_format: None,
                target_binaries: seq!["yt-dlp"@],
            },
            ToolDownloadSpecView {
                tool: RequiredTool::Ffmpeg,
                urls: seq![
                    "https://github.com/yt-dlp/FFmpeg-Builds/releases/download/latest/ffmpeg-master-latest-linux64-gpl.tar.xz"@,
                    "https://github.com/BtbN/FFmpeg-Builds/releases/download/latest/ffmpeg-master-latest-linux64-gpl.tar.xz"@,
                    "https://johnvansickle.com/ffmpeg/releases/ffmpeg-release-amd64-static.tar.xz"@,
                ],
                is_archive: true,
                archive_format: Some("tar.xz"@),
                target_binaries: seq!["ffmpeg"@, "ffprobe"@],
            },
            ToolDownloadSpecView {
                tool: RequiredTool::Node,
                urls: seq![
                    "https://nodejs.org/dist/v20.18.0/node-v20.18.0-linux-x64.tar.gz"@,
                    "https://nodejs.org/dist/v20.18.0/node-v20.18.0-linux-x64.tar.xz"@,
                ],
                is_archive: true,
                archive_format: Some("tar.gz"@),
                target_binaries: seq!["node"@],
            },
        ]
    }
}

/// Returns the download specifications for Windows (`windows`) or for Linux and
/// other Unix-like systems.
pub fn get_download_specs(windows: bool) -> (r: Vec<ToolDownloadSpec>)
    ensures
        r@.map_values(|s: ToolDownloadSpec| s@) == spec_download_specs(windows),
{
    let mut r: Vec<ToolDownloadSpec> = Vec::new();
    if windows {
        r.push(ToolDownloadSpec {
            tool: RequiredTool::YtDlp,
            urls: vec!["https://github.com/yt-dlp/yt-dlp/releases/latest/download/yt-dlp.exe"],
            is_archive: false,
            archive_format: None,
            target_binaries: vec!["yt-dlp.exe"],
        });
        r.push(ToolDownloadSpec {
            tool: RequiredTool::Ffmpeg,
            urls: vec![
                "https://github.com/yt-dlp/FFmpeg-Builds/releases/download/latest/ffmpeg-master-latest-win64-gpl.zip",
                "https://github.com/BtbN/FFmpeg-Builds/releases/download/latest/ffmpeg-master-latest-win64-gpl.zip",
                "https://www.gyan.dev/ffmpeg/builds/ffmpeg-release-essentials.zip",
            ],
            is_archive: true,
            archive_format: Some("zip"),
            target_binaries: vec!["ffmpeg.exe", "ffprobe.exe"],
        });
        r.push(ToolDownloadSpec {
            tool: RequiredTool::Node,
            urls: vec!["https://nodejs.org/dist/v20.18.0/win-x64/node.exe"],
            is_archive: false,
            archive_format: None,
            target_binaries: vec!["node.exe"],
        });
    } else {
        r.push(ToolDownloadSpec {
            tool: RequiredTool::YtDlp,
            urls: vec!["https://github.com/yt-dlp/yt-dlp/releases/latest/download/yt-dlp"],
            is_archive: false,
            archive_format: None,
            target_binaries: vec!["yt-dlp"],
        });
        r.push(ToolDownloadSpec {
            tool: RequiredTool::Ffmpeg,
            urls: vec![
                "https://github.com/yt-dlp/FFmpeg-Builds/releases/download/latest/ffmpeg-master-latest-linux64-gpl.tar.xz",
                "https://github.com/BtbN/FFmpeg-Builds/releases/download/latest/ffmpeg-master-latest-linux64-gpl.tar.xz",
                "https://johnvansickle.com/ffmpeg/releases/ffmpeg-release-amd64-static.tar.xz",
            ],
            is_archive: true,
            archive_format: Some("tar.xz"),
            target_binaries: vec!["ffmpeg", "ffprobe"],
        });
        r.push(ToolDownloadSpec {
            tool: RequiredTool::Node,
            urls: vec![
                "https://nodejs.org/dist/v20.18.0/node-v20.18.0-linux-x64.tar.gz",
                "https://nodejs.org/dist/v20.18.0/node-v20.18.0-linux-x64.tar.xz",
            ],
            is_archive: true,
            archive_format: Some("tar.gz"),
            target_binaries: vec!["node"],
        });
    }
    assert(strs_view(r@[0].urls) =~= spec_download_specs(windows)[0].urls);
    assert(strs_view(r@[0].target_binaries) =~= spec_download_specs(windows)[0].target_binaries);
    assert(strs_view(r@[1].urls) =~= spec_download_specs(windows)[1].urls);
    assert(strs_view(r@[1].target_binaries) =~= spec_download_specs(windows)[1].target_binaries);
    assert(strs_view(r@[2].urls) =~= spec_download_specs(windows)[2].urls);
    assert(strs_view(r@[2].target_binaries) =~= spec_download_specs(windows)[2].target_binaries);
    assert(r@.map_values(|s: ToolDownloadSpec| s@) =~= spec_download_specs(windows));
    r
}

/// The extension a downloaded file is saved under: the archive's format (`zip`
/// for an unknown or missing one), or `exe` (Windows) or `bin` for a bare binary.
pub open spec fn spec_download_extension(
    is_archive: bool,
    archive_format: Option<Seq<char>>,
    windows: bool,
) -> Seq<char> {
    if is_archive {
        match archive_format {
            Some(f) => if f == "tar.xz"@ || f == "tar.gz"@ || f == "tar"@ {
                f
            } else {
                "zip"@
            },
            None => "zip"@,
        }
    } else if windows {
        "exe"@
    } else {
        "bin"@
    }
}

/// The extension under which a tool's download is saved.
pub fn download_extension(spec: &ToolDownloadSpec, windows: bool) -> (r: &'static str)
    ensures
        r@ == spec_download_extension(spec@.is_archive, spec@.archive_format, windows),
{
    if spec.is_archive {
        match spec.archive_format {
            Some(f) => if str_eq(f, "tar.xz") {
                "tar.xz"
            } else if str_eq(f, "tar.gz") {
                "tar.gz"
            } else if str_eq(f, "tar") {
                "tar"
            } else {
                "zip"
            },
            None => "zip",
        }
    } else if windows {
        "exe"
    } else {
        "bin"
    }
}

/// The error an installation reports when every download attempt failed: the last
/// error seen, or a general one when none was recorded.
pub fn install_failure_message(last_err: String) -> (r: String)
    ensures
        r@ == if last_err@.len() == 0 {
            "All download attempts failed"@
        } else {
            last_err@
        },
{
    if char_count(last_err.as_str()) == 0 {
        owned("All download attempts failed")
    } else {
        last_err
    }
}

/// The status the setup worker reports for a tool before installing anything: found
/// (and where), or pending download when it is missing.
pub open spec fn spec_located_status(loc: ToolLocation) -> ToolSetupStatusView {
    match loc {
        ToolLocation::SystemPath(p) => ToolSetupStatusView::Found("Found in PATH: "@ + p@),
        ToolLocation::LocalBin(p) => ToolSetupStatusView::Found("Found in local bin: "@ + p@),
        ToolLocation::Missing => ToolSetupStatusView::PendingDownload,
    }
}

/// The status the setup worker reports for a tool given where it was found.
pub fn located_status(loc: &ToolLocation) -> (r: ToolSetupStatus)
    ensures
        r@ == spec_located_status(*loc),
{
    match loc {
        ToolLocation::SystemPath(p) => ToolSetupStatus::Found(concat_str("Found in PATH: ", p.as_str())),
        ToolLocation::LocalBin(p) => ToolSetupStatus::Found(
            concat_str("Found in local bin: ", p.as_str()),
        ),
        ToolLocation::Missing => ToolSetupStatus::PendingDownload,
    }
}

/// The event that ends a setup run: the first error, or completion.
pub fn setup_outcome(first_error: Option<(&'static str, String)>) -> (r: SetupEvent)
    ensures
        match first_error {
            Some((tool, error)) => r matches SetupEvent::Error { tool: t, error: e } && t == tool
                && e == error,
            None => r is Complete,
        },
{
    match first_error {
        Some((tool, error)) => SetupEvent::Error { tool, error },
        None => SetupEvent::Complete,
    }
}

/// Where the setup worker stands in a run over the tools: the first installation
/// that failed, if any, which is what the run reports at its end.
#[derive(Debug)]
pub struct SetupRun {
    pub first_error: Option<(&'static str, String)>,
}

impl SetupRun {
    /// A run in which nothing has failed yet.
    pub fn new() -> (r: SetupRun)
        ensures
            r.first_error is None,
    {
        SetupRun { first_error: None }
    }

    /// Records how installing `tool` went. The first failure of the run is kept;
    /// later ones leave it as it is.
    pub fn record_install(&mut self, tool: &'static str, result: Result<(), String>)
        ensures
            final(self).first_error == if old(self).first_error is Some {
                old(self).first_error
            } else {
                match result {
                    Ok(()) => None,
                    Err(e) => Some((tool, e)),
                }
            },
    {
        if self.first_error.is_none() {
            if let Err(e) = result {
                self.first_error = Some((tool, e));
            }
        }
    }

    /// The event that ends the run: the first failure, or completion.
    pub fn finish(self) -> (r: SetupEvent)
        ensures
            match self.first_error {
                Some((tool, error)) => r matches SetupEvent::Error { tool: t, error: e } && t
                    == tool && e == error,
                None => r is Complete,
            },
    {
        setup_outcome(self.first_error)
    }
}

/// Where the installation of one tool stands while its download URLs are tried
/// in order: how many were tried, whether one of them installed the tool, and the
/// error of the last failed attempt.
#[derive(Debug)]
pub struct InstallAttempts {
    pub tried: usize,
    pub installed: bool,
    pub last_error: String,
}

impl InstallAttempts {
    /// No URL tried yet.
    pub fn new() -> (r: InstallAttempts)
        ensures
            r.tried == 0,
            !r.installed,
            r.last_error@ == Seq::<char>::empty(),
    {
        InstallAttempts { tried: 0, installed: false, last_error: String::new() }
    }

    /// The URL to try next: the one after those tried, until one attempt has
    /// installed the tool or every URL has been tried.
    pub fn next_url(&self, urls: &Vec<&'static str>) -> (r: Option<&'static str>)
        ensures
            match r {
                Some(u) => !self.installed && self.tried < urls@.len() && u == urls@[self.tried as int],
                None => self.installed || self.tried >= urls@.len(),
            },
    {
        if self.installed || self.tried >= urls.len() {
            None
        } else {
            Some(urls[self.tried])
        }
    }

    /// Records how the attempt with the next URL went.
    pub fn record(&mut self, outcome: Result<(), String>)
        requires
            old(self).tried < usize::MAX,
        ensures
            final(self).tried == old(self).tried + 1,
            final(self).installed == (old(self).installed || outcome is Ok),
            final(self).last_error == match outcome {
                Ok(()) => old(self).last_error,
                Err(e) => e,
            },
    {
        self.tried = self.tried + 1;
        match outcome {
            Ok(()) => {
                self.installed = true;
            },
            Err(e) => {
                self.last_error = e;
            },
        }
    }

    /// What the installation comes to: success once an attempt installed the
    /// tool, else the last error seen (or a general one when none was recorded).
    pub fn outcome(self) -> (r: Result<(), String>)
        ensures
            match r {
                Ok(()) => self.installed,
                Err(m) => !self.installed && m@ == if self.last_error@.len() == 0 {
                    "All download attempts failed"@
                } else {
                    self.last_error@
                },
            },
    {
        if self.installed {
            Ok(())
        } else {
            Err(install_failure_message(self.last_error))
        }
    }
}

/// What one line of `curl`'s or `wget`'s progress output reports.
#[derive(Debug)]
pub enum TransferLine {
    /// Progress, in hundredths of a percent.
    Progress(u32),
    /// An error message.
    Error(String),
    /// Nothing of interest.
    Other,
}

/// What a (trimmed, non-empty) line of transfer output reports: a percentage when
/// it holds one; for `curl` (`collect_errors`), any other line not starting with
/// `#` is an error message.
pub open spec fn spec_transfer_line(line: Seq<char>, collect_errors: bool) -> Option<
    Option<Seq<char>>,
> {
    match spec_line_percent(line) {
        Some(_) => None,
        None => if collect_errors && !(line.len() > 0 && line[0] == '#') {
            Some(Some(line))
        } else {
            Some(None)
        },
    }
}

/// Reads one line of transfer output.
pub fn classify_transfer_line(line: &str, collect_errors: bool) -> (r: TransferLine)
    ensures
        match spec_line_percent(line@) {
            Some(p) => r == TransferLine::Progress(p),
            None => if collect_errors && !(line@.len() > 0 && line@[0] == '#') {
                r matches TransferLine::Error(e) && e@ == line@
            } else {
                r is Other
            },
        },
{
    match line_percent(line) {
        Some(p) => TransferLine::Progress(p),
        None => if collect_errors && !str_starts_with_char(line, '#') {
            TransferLine::Error(owned(line))
        } else {
            TransferLine::Other
        },
    }
}

/// Takes one byte of a transfer tool's error output into the line being collected
/// (each byte read as the character of that code). At a carriage return or line
/// feed, a line that is not blank is handed out trimmed and the buffer starts
/// afresh; a blank one stays in the buffer.
pub fn feed_transfer_byte(buf: &mut Vec<char>, byte: u8) -> (r: Option<String>)
    ensures
        if byte == 13 || byte == 10 {
            if trim(old(buf)@).len() > 0 {
                &&& r matches Some(l) && l@ == trim(old(buf)@)
                &&& final(buf)@ == Seq::<char>::empty()
            } else {
                r is None && final(buf)@ == old(buf)@
            }
        } else {
            r is None && final(buf)@ == old(buf)@.push(byte as char)
        },
{
    if byte == 13 || byte == 10 {
        let (a, b) = trim_range(buf, 0, buf.len());
        assert(buf@.subrange(0, buf@.len() as int) == buf@);
        if a < b {
            let line = string_of_range(buf, a, b);
            buf.clear();
            Some(line)
        } else {
            None
        }
    } else {
        buf.push(byte as char);
        None
    }
}

/// Why a `curl` download failed: its last error line, or its exit status.
pub fn curl_failure_detail(error_lines: &Vec<String>, status: &str) -> (r: String)
    ensures
        r@ == if error_lines@.len() > 0 {
            "curl error: "@ + error_lines@.last()@
        } else {
            "curl failed with exit status: "@ + status@
        },
{
    if error_lines.len() > 0 {
        concat_str("curl error: ", error_lines[error_lines.len() - 1].as_str())
    } else {
        concat_str("curl failed with exit status: ", status)
    }
}

/// A way of unpacking an archive, tried in turn until one succeeds.
#[derive(Debug, Clone, Copy, PartialEq, Eq, Structural)]
pub enum Extractor {
    /// `tar -xf <archive> -C <dir>`.
    Tar,
    /// Python's `tarfile` module.
    PythonTarfile,
    /// `unzip -q <archive> -d <dir>`.
    Unzip,
    /// Python's `zipfile` module.
    PythonZipfile,
    /// PowerShell's `Expand-Archive`.
    ExpandArchive,
}

/// The ways of unpacking an archive of the given format, in the order they are
/// tried; none for an unsupported format.
pub open spec fn spec_extraction_plan(format: Seq<char>, windows: bool) -> Seq<Extractor> {
    if format == "tar.xz"@ || format == "tar.gz"@ || format == "tar"@ {
        if windows {
            seq![Extractor::Tar]
        } else {
            seq![Extractor::Tar, Extractor::PythonTarfile]
        }
    } else if format == "zip"@ {
        if windows {
            seq![Extractor::Tar, Extractor::ExpandArchive]
        } else {
            seq![Extractor::Tar, Extractor::Unzip, Extractor::PythonZipfile]
        }
    } else {
        Seq::empty()
    }
}

/// The ways of unpacking an archive of the given format, in the order they are tried.
pub fn extraction_plan(format: &str, windows: bool) -> (r: Vec<Extractor>)
    ensures
        r@ == spec_extraction_plan(format@, windows),
{
    let mut r: Vec<Extractor> = Vec::new();
    if str_eq(format, "tar.xz") || str_eq(format, "tar.gz") || str_eq(format, "tar") {
        r.push(Extractor::Tar);
        if !windows {
            r.push(Extractor::PythonTarfile);
        }
    } else if str_eq(format, "zip") {
        r.push(Extractor::Tar);
        if windows {
            r.push(Extractor::ExpandArchive);
        } else {
            r.push(Extractor::Unzip);
            r.push(Extractor::PythonZipfile);
        }
    }
    assert(r@ =~= spec_extraction_plan(format@, windows));
    r
}

/// Why unpacking failed when every way of the plan did.
pub open spec fn spec_extraction_failure(format: Seq<char>, windows: bool) -> Seq<char> {
    if format == "zip"@ {
        if windows {
            "Expand-Archive failed"@
        } else {
            "Failed to extract zip archive with tar, unzip, or python3"@
        }
    } else if spec_extraction_plan(format, windows).len() > 0 {
        "Failed to extract "@ + format + " archive with tar or python3"@
    } else {
        "Unsupported archive format: "@ + format
    }
}

/// Why unpacking an archive of the given format failed.
pub fn extraction_failure(format: &str, windows: bool) -> (r: String)
    ensures
        r@ == spec_extraction_failure(format@, windows),
{
    if str_eq(format, "zip") {
        if windows {
            owned("Expand-Archive failed")
        } else {
            owned("Failed to extract zip archive with tar, unzip, or python3")
        }
    } else if str_eq(format, "tar.xz") || str_eq(format, "tar.gz") || str_eq(format, "tar") {
        concat3("Failed to extract ", format, " archive with tar or python3")
    } else {
        concat_str("Unsupported archive format: ", format)
    }
}

/// A path written into a single-quoted Python string: each `'` becomes `\'`.
pub open spec fn python_quoted(s: Seq<char>) -> Seq<char> {
    replace_char(s, '\'', seq!['\\', '\''])
}

/// A text written into a single-quoted PowerShell string: each `'` is doubled.
pub open spec fn powershell_quoted(s: Seq<char>) -> Seq<char> {
    replace_char(s, '\'', seq!['\'', '\''])
}

/// The Python program that unpacks `archive` into `dest` with `zipfile` (`zip`)
/// or `tarfile`.
pub open spec fn spec_python_extract_script(zip: bool, archive: Seq<char>, dest: Seq<char>) -> Seq<char> {
    if zip {
        "import zipfile; zf = zipfile.ZipFile('"@ + python_quoted(archive) + "'); zf.extractall('"@
            + python_quoted(dest) + "'); zf.close()"@
    } else {
        "import tarfile; tf = tarfile.open('"@ + python_quoted(archive) + "'); tf.extractall('"@
            + python_quoted(dest) + "'); tf.close()"@
    }
}

/// The Python program that unpacks `archive` into `dest`.
pub fn python_extract_script(zip: bool, archive: &str, dest: &str) -> (r: String)
    ensures
        r@ == spec_python_extract_script(zip, archive@, dest@),
{
    let a = replace_char_str(archive, '\'', "\\'");
    let d = replace_char_str(dest, '\'', "\\'");
    proof {
        reveal_strlit("\\'");
        assert("\\'"@ =~= seq!['\\', '\'']);
    }
    let head = if zip {
        concat3("import zipfile; zf = zipfile.ZipFile('", a.as_str(), "'); zf.extractall('")
    } else {
        concat3("import tarfile; tf = tarfile.open('", a.as_str(), "'); tf.extractall('")
    };
    let tail = if zip {
        "'); zf.close()"
    } else {
        "'); tf.close()"
    };
    concat3(head.as_str(), d.as_str(), tail)
}

/// The PowerShell command that unpacks `archive` into `dest`.
pub open spec fn spec_expand_archive_script(archive: Seq<char>, dest: Seq<char>) -> Seq<char> {
    "Expand-Archive -Path '"@ + powershell_quoted(archive) + "' -DestinationPath '"@
        + powershell_quoted(dest) + "' -Force"@
}

/// The PowerShell command that unpacks `archive` into `dest`.
pub fn expand_archive_script(archive: &str, dest: &str) -> (r: String)
    ensures
        r@ == spec_expand_archive_script(archive@, dest@),
{
    let a = replace_char_str(archive, '\'', "''");
    let d = replace_char_str(dest, '\'', "''");
    proof {
        reveal_strlit("''");
        assert("''"@ =~= seq!['\'', '\'']);
    }
    let head = concat3("Expand-Archive -Path '", a.as_str(), "' -DestinationPath '");
    concat3(head.as_str(), d.as_str(), "' -Force")
}

/// The PowerShell command that downloads `url` to `dest`.
pub open spec fn spec_powershell_download_script(url: Seq<char>, dest: Seq<char>) -> Seq<char> {
    "[Net.ServicePointManager]::SecurityProtocol = [Net.SecurityProtocolType]::Tls12; (New-Object System.Net.WebClient).DownloadFile('"@
        + powershell_quoted(url) + "', '"@ + powershell_quoted(dest) + "')"@
}

/// The PowerShell command that downloads `url` to `dest`.
pub fn powershell_download_script(url: &str, dest: &str) -> (r: String)
    ensures
        r@ == spec_powershell_download_script(url@, dest@),
{
    let u = replace_char_str(url, '\'', "''");
    let d = replace_char_str(dest, '\'', "''");
    proof {
        reveal_strlit("''");
        assert("''"@ =~= seq!['\'', '\'']);
    }
    let head = concat3(
        "[Net.ServicePointManager]::SecurityProtocol = [Net.SecurityProtocolType]::Tls12; (New-Object System.Net.WebClient).DownloadFile('",
        u.as_str(),
        "', '",
    );
    concat3(head.as_str(), d.as_str(), "')")
}

/// Where a tool is found: ffmpeg is missing exactly when its binary or ffprobe was
/// found nowhere (neither on `PATH` nor in the local bin directory); a tool that
/// counts as found is taken from `PATH` when its binary is there, else from the
/// local bin directory; any other tool is missing exactly when its binary was found
/// nowhere.
pub proof fn lemma_check_tool_finds_installed_tools(
    tool: RequiredTool,
    main: BinaryLookup,
    probe: BinaryLookup,
)
    ensures
        tool == RequiredTool::Ffmpeg ==> (spec_check_tool(tool, main, probe) is Missing <==> (
        (main.in_path is None && main.in_user_bin is None) || (probe.in_path is None
            && probe.in_user_bin is None))),
        tool != RequiredTool::Ffmpeg ==> (spec_check_tool(tool, main, probe) is Missing <==> (
        main.in_path is None && main.in_user_bin is None)),
        !(spec_check_tool(tool, main, probe) is Missing) ==> (match main.in_path {
            Some(p) => spec_check_tool(tool, main, probe) == ToolLocation::SystemPath(p),
            None => main.in_user_bin matches Some(p) && spec_check_tool(tool, main, probe)
                == ToolLocation::LocalBin(p),
        }),
{
}

/// Finding ffprobe (or a tool's binary) in more places never turns a tool that was
/// found into a missing one.
pub proof fn lemma_check_tool_monotone(
    tool: RequiredTool,
    main: BinaryLookup,
    main2: BinaryLookup,
    probe: BinaryLookup,
    probe2: BinaryLookup,
)
    requires
        main.in_path is Some ==> main2.in_path is Some,
        main.in_user_bin is Some ==> main2.in_user_bin is Some,
        probe.in_path is Some ==> probe2.in_path is Some,
        probe.in_user_bin is Some ==> probe2.in_user_bin is Some,
        !(spec_check_tool(tool, main, probe) is Missing),
    ensures
        !(spec_check_tool(tool, main2, probe2) is Missing),
{
    lemma_check_tool_finds_installed_tools(tool, main, probe);
    lemma_check_tool_finds_installed_tools(tool, main2, probe2);
}

/// Off Windows a file is the binary `target` exactly when it is named `target` or
/// `target.exe`; on Windows the same names match whatever the case of their ASCII
/// letters.
pub proof fn lemma_file_name_matches_binary(name: Seq<char>, target: Seq<char>)
    ensures
        spec_file_name_matches(name, target, false) <==> (name == target || name == target
            + ".exe"@),
        (name == target || name == target + ".exe"@) ==> spec_file_name_matches(name, target, true),
{
    assert(eq_ignore_ascii_case(name, name));
}

/// What one step of the search for a binary reports is a listed regular file whose
/// name is the binary's; a directory that lies `MAX_SEARCH_DEPTH` levels down
/// adds none of its subdirectories to what is left to read.
pub proof fn lemma_search_step_reports_matching_file(
    s: BinarySearch,
    t: BinarySearch,
    listing: Seq<ListedEntry>,
    target: Seq<char>,
    windows: bool,
    r: Option<String>,
)
    requires
        s.pending@.len() > 0,
        search_step_effect(s, t, listing, target, windows, r),
    ensures
        r matches Some(p) ==> exists|i: int|
            0 <= i < listing.len() && #[trigger] listing[i].path == p && listing[i].is_file
                && spec_file_name_matches(listing[i].name@, target, windows),
        (r is None && s.pending@[0].1 >= 10) ==> t.pending@ == s.pending@.skip(1),
        (r is None && s.pending@[0].1 < 10) ==> t.pending@.len() >= s.pending@.len() - 1,
{
    if r is None && s.pending@[0].1 < 10 {
        assert(t.pending@.len() == listed_subdirs(listing, (s.pending@[0].1 + 1) as usize).len()
            + s.pending@.len() - 1);
    }
    if r is None && s.pending@[0].1 >= 10 {
        assert(t.pending@ =~= s.pending@.skip(1));
    }
}

} // verus!
