use video_downloader::downloader::{extract_filename_portably, parse_ytdlp_filename, ytdlp_args};
use video_downloader::downloader::{
    error_summary, line_percent, parse_percent, DownloadEvent, ProgressTracker,
};

#[test]
fn test_progress_regex_matches_various_formats() {
    let test_cases = vec![
        ("[download]   0.1% of 15.20MiB at 2.45MiB/s ETA 00:06", 10),
        (
            "[download]  45.8% of ~ 84.12MiB at  4.10MiB/s ETA 00:11",
            4580,
        ),
        ("[download] 100% of 50.00MiB in 00:05", 10000),
        ("[download] 100.0% of 50.00MiB in 00:05", 10000),
        ("[download]   9.5% of 1.20GiB at 15.20MiB/s ETA 01:15", 950),
    ];

    for (line, expected_hundredths) in test_cases {
        let parsed = line_percent(line);
        assert!(parsed.is_some(), "Expected a percentage in line: {}", line);
        assert_eq!(parsed.unwrap(), expected_hundredths, "line: {}", line);
    }
}

#[test]
fn test_progress_regex_ignores_non_progress_lines() {
    let non_progress_lines = vec![
        "[download] Destination: my_video.f137.mp4",
        "[Merger] Merging formats into \"my_video.mp4\"",
        "[youtube] Extracting URL: https://www.youtube.com/watch?v=dQw4w9WgXcQ",
        "[info] Available formats for dQw4w9WgXcQ:",
        "Deleting original file my_video.f137.mp4 (pass -k to keep)",
    ];

    for line in non_progress_lines {
        assert!(
            line_percent(line).is_none(),
            "Expected NO percentage for non-progress line: {}",
            line
        );
    }
}

#[test]
fn test_parse_ytdlp_filename_matches_all_variants() {

    // 1. Destination line
    assert_eq!(
        parse_ytdlp_filename("[download] Destination: downloads/my_video.f137.mp4"),
        Some("my_video.f137.mp4".to_string())
    );

    // 2. Windows destination with backslashes
    assert_eq!(
        parse_ytdlp_filename(r"[download] Destination: C:\Downloads\my_video.f140.m4a"),
        Some("my_video.f140.m4a".to_string())
    );

    // 3. Merger line with double quotes
    assert_eq!(
        parse_ytdlp_filename(r#"[Merger] Merging formats into "downloads/finished_video.mp4""#),
        Some("finished_video.mp4".to_string())
    );

    // 4. Merger line with single quotes
    assert_eq!(
        parse_ytdlp_filename("[Merger] Merging formats into 'downloads/finished_video.mp4'"),
        Some("finished_video.mp4".to_string())
    );

    // 5. Already downloaded line
    assert_eq!(
        parse_ytdlp_filename("[download] ./downloads/cached_video.mp4 has already been downloaded"),
        Some("cached_video.mp4".to_string())
    );

    // 6. ExtractAudio destination
    assert_eq!(
        parse_ytdlp_filename("[ExtractAudio] Destination: /music/track.mp3"),
        Some("track.mp3".to_string())
    );

    // 7. Non-matching lines
    assert_eq!(
        parse_ytdlp_filename("[download]  45.8% of ~ 84.12MiB at  4.10MiB/s ETA 00:11"),
        None
    );
    assert_eq!(
        parse_ytdlp_filename("[youtube] Extracting URL: https://example.com/watch"),
        None
    );

    // 8. Windows backslashes in Merger line
    assert_eq!(
        parse_ytdlp_filename(
            r#"[Merger] Merging formats into "C:\Users\Admin\Downloads\finished.mp4""#
        ),
        Some("finished.mp4".to_string())
    );

    // 9. Windows backslashes in already downloaded line
    assert_eq!(
        parse_ytdlp_filename(
            r"[download] C:\Downloads\already_cached.mp4 has already been downloaded"
        ),
        Some("already_cached.mp4".to_string())
    );

    // 10. Already downloaded with quotes
    assert_eq!(
        parse_ytdlp_filename(
            r#"[download] "downloads/quoted_cached.mp4" has already been downloaded"#
        ),
        Some("quoted_cached.mp4".to_string())
    );

    // 11. Filename with no directory prefix
    assert_eq!(
        parse_ytdlp_filename("[download] Destination: standalone.mp4"),
        Some("standalone.mp4".to_string())
    );

    // 12. Windows drive prefix without slash
    assert_eq!(
        parse_ytdlp_filename(r"[download] Destination: D:drive_video.mkv"),
        Some("drive_video.mkv".to_string())
    );

    // 13. Empty or path-only destinations
    assert_eq!(parse_ytdlp_filename("[download] Destination: "), None);
    assert_eq!(parse_ytdlp_filename("[download] Destination: /"), None);
    assert_eq!(parse_ytdlp_filename(r"[download] Destination: C:\"), None);
    assert_eq!(parse_ytdlp_filename("[download] Destination: ."), None);
    assert_eq!(parse_ytdlp_filename("[download] Destination: .."), None);
    assert_eq!(parse_ytdlp_filename(r"[download] Destination: C:\."), None);
    assert_eq!(parse_ytdlp_filename(r"[download] Destination: C:\.."), None);

    // 14. Colons in subdirectory filenames
    assert_eq!(
        parse_ytdlp_filename("[download] Destination: /downloads/A: Part 1.mp4"),
        Some("A: Part 1.mp4".to_string())
    );
}

#[test]
fn test_extract_filename_portably_edge_cases() {

    assert_eq!(extract_filename_portably(""), None);
    assert_eq!(extract_filename_portably("   "), None);
    assert_eq!(extract_filename_portably("/"), None);
    assert_eq!(extract_filename_portably("\\"), None);
    assert_eq!(extract_filename_portably(r"C:\"), None);
    assert_eq!(extract_filename_portably("."), None);
    assert_eq!(extract_filename_portably(".."), None);
    assert_eq!(extract_filename_portably("/var/log/."), None);
    assert_eq!(extract_filename_portably(r"C:\Windows\.."), None);
    assert_eq!(
        extract_filename_portably("a.mp4"),
        Some("a.mp4".to_string())
    );
    assert_eq!(
        extract_filename_portably("/var/log/a.mp4"),
        Some("a.mp4".to_string())
    );
    assert_eq!(
        extract_filename_portably(r"C:\Windows\a.mp4"),
        Some("a.mp4".to_string())
    );
    assert_eq!(
        extract_filename_portably(r"C:a.mp4"),
        Some("a.mp4".to_string())
    );
    assert_eq!(
        extract_filename_portably("/downloads/A: Part 1.mp4"),
        Some("A: Part 1.mp4".to_string())
    );
    assert_eq!(
        extract_filename_portably(r"C:\downloads\A: Part 1.mp4"),
        Some("A: Part 1.mp4".to_string())
    );
    assert_eq!(
        extract_filename_portably(r#""/path/with space/vid.m4a""#),
        Some("vid.m4a".to_string())
    );
    assert_eq!(
        extract_filename_portably(r#"'C:\path with space\vid.m4a'"#),
        Some("vid.m4a".to_string())
    );
}

#[test]
fn test_parse_percent_fixed_point() {
    assert_eq!(parse_percent("45.8"), Some(4580));
    assert_eq!(parse_percent("45.678"), Some(4567));
    assert_eq!(parse_percent("7"), Some(700));
    assert_eq!(parse_percent("0.05"), Some(5));
    assert_eq!(parse_percent("250"), Some(10000));
    assert_eq!(parse_percent("99999999999999999999999"), Some(10000));
    assert_eq!(parse_percent(""), None);
    assert_eq!(parse_percent(".5"), None);
    assert_eq!(parse_percent("5."), None);
    assert_eq!(parse_percent("4a"), None);
    assert_eq!(parse_percent("\u{0663}"), None);
}

#[test]
fn test_progress_tracker_counts_tracks_and_merging() {
    let mut tracker = ProgressTracker::new();
    let first = tracker.process_line("[download] Destination: video.f137.mp4", 0);
    assert_eq!(first.filename, Some("video.f137.mp4".to_string()));
    assert!(!first.merging);
    assert!(first.progress.is_none());
    assert_eq!(tracker.current_track, 1);

    let p = tracker.process_line("[download]  12.5% of 10MiB", 0);
    assert_eq!(p.progress, Some((1, 1250)));

    let second = tracker.process_line("[download] Destination: video.f140.m4a", 0);
    assert!(second.progress.is_none());
    assert_eq!(tracker.current_track, 2);

    let merge = tracker.process_line("[Merger] Merging formats into \"video.mp4\"", 0);
    assert!(merge.merging);
    assert_eq!(merge.filename, Some("video.mp4".to_string()));
}

#[test]
fn test_progress_tracker_throttles_reports() {
    let mut tracker = ProgressTracker::new();
    // The first percentage is always reported, on the first stream.
    assert_eq!(tracker.track_progress(1010, 0), Some((1, 1010)));
    // Same whole percent, little time passed: held back.
    assert_eq!(tracker.track_progress(1050, 10), None);
    // Same whole percent, but enough time passed.
    assert_eq!(tracker.track_progress(1060, 150), Some((1, 1060)));
    // The whole percent changed.
    assert_eq!(tracker.track_progress(1100, 0), Some((1, 1100)));
    // Completion is always reported.
    assert_eq!(tracker.track_progress(10000, 0), Some((1, 10000)));
    assert_eq!(tracker.track_progress(10000, 0), Some((1, 10000)));
}

#[test]
fn test_error_summary_joins_stderr_or_reports_status() {
    let lines = vec!["ERROR: first".to_string(), "ERROR: second".to_string()];
    assert_eq!(error_summary(&lines, "exit status: 1"), "ERROR: first | ERROR: second");
    assert_eq!(
        error_summary(&Vec::new(), "exit status: 2"),
        "yt-dlp process exited with status: exit status: 2"
    );
}

#[test]
fn test_download_event_carries_hundredths() {
    let event = DownloadEvent::Progress { id: 3, track: 2, percent: 4580 };
    match event {
        DownloadEvent::Progress { id, track, percent } => {
            assert_eq!((id, track, percent), (3, 2, 4580));
        }
        _ => panic!("wrong variant"),
    }
}

#[test]
fn test_ytdlp_args_follow_the_download_settings() {
    let args = ytdlp_args("/dl/%(title)s.%(ext)s", "https://x.com/v", true, Some("/opt/ff"));
    assert_eq!(
        args,
        vec![
            "--js-runtimes", "node", "--force-overwrites", "--newline", "--windows-filenames",
            "--no-mtime", "--ffmpeg-location", "/opt/ff", "-f",
            "bestvideo[vcodec^=avc]+bestaudio[ext=m4a]/bestvideo+bestaudio/best[ext=mp4]/best",
            "--merge-output-format", "mp4", "-o", "/dl/%(title)s.%(ext)s", "https://x.com/v",
        ]
    );
    let plain = ytdlp_args("out", "u", false, None);
    assert_eq!(plain.len(), 11);
    assert_eq!(plain[0], "--force-overwrites");
    assert_eq!(plain[9], "out");
    assert_eq!(plain[10], "u");
}
