use video_downloader::app::App;
use video_downloader::config::{format_config_full, parse_config_history_limit, DEFAULT_HISTORY_LIMIT};
use video_downloader::history::{prune_history, HistoryEntry, HistoryStatus};

#[test]
fn test_history_fifo_pruning_order() {
    let mut entries = Vec::new();
    for i in 1..=10 {
        entries.push(HistoryEntry::new_completed(
            i,
            format!("https://site.com/{}", i),
            Some(format!("file_{}.mp4", i)),
            Some(format!("/downloads/file_{}.mp4", i)),
        ));
    }

    assert_eq!(entries.len(), 10);
    // Prune down to 5
    prune_history(&mut entries, 5);

    assert_eq!(entries.len(), 5);
    // Index 0 is the newest (entry #1), tail was pruned
    assert_eq!(entries[0].id, 1);
    assert_eq!(entries[4].id, 5);
}

#[test]
fn test_default_history_limit_at_least_50() {
    assert!(
        DEFAULT_HISTORY_LIMIT >= 50,
        "Requirement specifies default history limit must be at least 50"
    );
}

#[test]
fn test_config_history_limit_parsing_and_formatting() {
    let toml = r#"
# Vidown Config
output_dir = "/custom/dir"
history_limit = 75
"#;
    assert_eq!(parse_config_history_limit(toml), Some(75));

    let toml_inline_comment = r#"
history_limit = 100 # inline comment
"#;
    assert_eq!(parse_config_history_limit(toml_inline_comment), Some(100));

    let toml_quoted = r#"
history_limit = "60"
"#;
    assert_eq!(parse_config_history_limit(toml_quoted), Some(60));

    let formatted = format_config_full("/my/output", 120);
    assert_eq!(parse_config_history_limit(&formatted), Some(120));
}

#[test]
fn test_history_entry_constructors_record_fields() {
    let entry = HistoryEntry::new_completed(
        1,
        "https://example.com/video1.mp4".to_string(),
        Some("video1.mp4".to_string()),
        Some("/downloads/video1.mp4".to_string()),
    );
    assert_eq!(entry.status, HistoryStatus::Completed);
    assert_eq!(entry.status.label(), "Completed");
    assert!(entry.error_message.is_none());
    assert_eq!(entry.timestamp.len(), "YYYY-MM-DD HH:MM:SS".len());

    let failed = HistoryEntry::new_failed(
        2,
        "https://example.com/bad_video.mp4".to_string(),
        None,
        Some("./downloads".to_string()),
        "HTTP 404: Not Found".to_string(),
    );
    assert_eq!(failed.status, HistoryStatus::Failed);
    assert_eq!(failed.status.label(), "Failed");
    assert_eq!(failed.error_message.as_deref(), Some("HTTP 404: Not Found"));
    assert_eq!(failed.file_path.as_deref(), Some("./downloads"));
}

#[test]
fn test_add_history_entry_newest_first_with_limit() {
    let mut app = App::new_empty();
    app.history_limit = 3;
    for i in 1..=5 {
        app.add_history_entry(HistoryEntry::new_completed(i, format!("https://s/{}", i), None, None));
    }
    let ids: Vec<usize> = app.history.iter().map(|e| e.id).collect();
    assert_eq!(ids, vec![5, 4, 3]);
    assert!(app.take_history_save());
    assert!(!app.take_history_save());
}

#[test]
fn test_open_selected_history_in_file_manager_states() {
    let mut app = App::new_empty();

    // 1. On empty history, status indicates no entry selected
    app.open_history_modal();
    assert_eq!(app.selected_history_file_path(), None);
    assert_eq!(
        app.status_message.as_deref(),
        Some("No download history entry selected.")
    );

    // 2. On entry with None file_path, status indicates no file destination recorded
    let failed_entry = HistoryEntry::new_failed(
        1,
        "https://fail.com".to_string(),
        None,
        None,
        "Network error".to_string(),
    );
    app.add_history_entry(failed_entry);
    assert_eq!(app.selected_history_file_path(), None);
    assert_eq!(
        app.status_message.as_deref(),
        Some("No file destination recorded for this history entry.")
    );

    // 3. On entry with valid file_path, the path is handed out and the outcome recorded
    let completed_entry = HistoryEntry::new_completed(
        2,
        "https://ok.com".to_string(),
        Some("vid.mp4".to_string()),
        Some("./downloads/vid.mp4".to_string()),
    );
    app.add_history_entry(completed_entry);
    app.history_modal.as_mut().unwrap().selected = 0; // Newest entry
    let path = app.selected_history_file_path();
    assert_eq!(path.as_deref(), Some("./downloads/vid.mp4"));
    app.report_file_manager_result("./downloads/vid.mp4", None);
    assert_eq!(
        app.status_message.as_deref(),
        Some("Opened file explorer for: ./downloads/vid.mp4")
    );
    app.report_file_manager_result("./downloads/vid.mp4", Some("no display".to_string()));
    assert!(app.status_message.as_ref().unwrap().contains("file explorer"));
}

#[test]
fn test_delete_and_retry_history_entries() {
    let mut app = App::new_empty();
    app.add_history_entry(HistoryEntry::new_completed(1, "https://a".to_string(), None, None));
    app.add_history_entry(HistoryEntry::new_completed(2, "https://b".to_string(), None, None));
    app.open_history_modal();
    app.history_modal.as_mut().unwrap().selected = 1;
    app.delete_selected_history_entry();
    assert_eq!(app.history.len(), 1);
    assert_eq!(app.history[0].url, "https://b");
    assert_eq!(app.history_modal.as_ref().unwrap().selected, 0);
    assert_eq!(app.status_message.as_deref(), Some("Deleted entry from download history."));

    let retried = app.retry_selected_history();
    assert_eq!(retried, Some((1, "https://b".to_string())));
    assert!(app.history_modal.is_none());
    assert_eq!(app.downloads.len(), 1);
    assert_eq!(app.status_message.as_deref(), Some("Retrying download #1: https://b"));
}

#[test]
fn test_timestamp_has_the_documented_shape() {
    let entry = HistoryEntry::new_completed(3, "https://x.com/v".to_string(), None, None);
    let t: Vec<char> = entry.timestamp.chars().collect();
    let n = t.len();
    assert!(n >= 19);
    assert!(t[..n - 15].iter().all(|c| c.is_ascii_digit()));
    assert_eq!(t[n - 15], '-');
    assert_eq!(t[n - 12], '-');
    assert_eq!(t[n - 9], ' ');
    assert_eq!(t[n - 6], ':');
    assert_eq!(t[n - 3], ':');
    let field = |i: usize| -> u32 { t[i].to_digit(10).unwrap() * 10 + t[i + 1].to_digit(10).unwrap() };
    assert!((1..=12).contains(&field(n - 14)));
    assert!((1..=31).contains(&field(n - 11)));
    assert!(field(n - 8) <= 23);
    assert!(field(n - 5) <= 59);
    assert!(field(n - 2) <= 60);
}
