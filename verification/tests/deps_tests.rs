use video_downloader::app::{App, CurrentScreen, SetupPhase, SetupState};
use video_downloader::deps::{
    binary_candidates, check_all_dependencies, check_tool, classify_transfer_line,
    curl_failure_detail, download_extension, expand_archive_script, extraction_failure,
    extraction_plan, feed_transfer_byte, file_name_matches, powershell_download_script,
    python_extract_script, Extractor,
    get_download_specs, install_failure_message, located_status, resolve_binary, setup_outcome,
    BinaryLookup, BinarySearch, InstallAttempts, ListedEntry, MAX_SEARCH_DEPTH, RequiredTool, SetupEvent, SetupRun, ToolLocation,
    ToolSetupStatus, TransferLine,
};
use video_downloader::events::{handle_key_event, KeyCode, KeyEvent, KeyEventKind, KeyModifiers};

fn press_key(code: KeyCode) -> KeyEvent {
    KeyEvent {
        code,
        modifiers: KeyModifiers { shift: false, control: false, alt: false },
        kind: KeyEventKind::Press,
    }
}

fn press_char(c: char) -> KeyEvent {
    press_key(KeyCode::Char(c))
}

fn lookup(in_path: Option<&str>, in_user_bin: Option<&str>) -> BinaryLookup {
    BinaryLookup {
        in_path: in_path.map(|s| s.to_string()),
        in_user_bin: in_user_bin.map(|s| s.to_string()),
    }
}

#[test]
fn test_binary_candidates_platform() {
    let candidates = binary_candidates("yt-dlp", true);
    assert!(!candidates.is_empty());
    assert!(candidates.contains(&"yt-dlp.exe".to_string()));
    assert!(candidates.contains(&"yt-dlp".to_string()));
    assert_eq!(
        candidates,
        vec!["yt-dlp.exe".to_string(), "yt-dlp".to_string(), "yt-dlp.cmd".to_string(), "yt-dlp.bat".to_string()]
    );
    assert_eq!(binary_candidates("node.exe", true), vec!["node.exe".to_string()]);

    let candidates = binary_candidates("yt-dlp", false);
    assert_eq!(candidates, vec!["yt-dlp".to_string()]);
}

#[test]
fn test_resolve_binary_local_vs_system() {
    assert_eq!(resolve_binary("yt-dlp", None), "yt-dlp");
    assert_eq!(
        resolve_binary("yt-dlp", Some("/home/u/.local/share/vidown/bin/yt-dlp".to_string())),
        "/home/u/.local/share/vidown/bin/yt-dlp"
    );
}

#[test]
fn test_get_download_specs_validity() {
    for windows in [false, true] {
        let specs = get_download_specs(windows);
        assert_eq!(specs.len(), 3);

        let yt_spec = specs.iter().find(|s| s.tool == RequiredTool::YtDlp).unwrap();
        assert!(!yt_spec.urls.is_empty());
        assert!(yt_spec.urls[0].contains("github.com/yt-dlp/yt-dlp"));
        assert!(!yt_spec.is_archive);

        let ffmpeg_spec = specs.iter().find(|s| s.tool == RequiredTool::Ffmpeg).unwrap();
        assert!(!ffmpeg_spec.urls.is_empty());
        assert!(ffmpeg_spec.is_archive);
        assert!(ffmpeg_spec.target_binaries.contains(&"ffmpeg") || ffmpeg_spec.target_binaries.contains(&"ffmpeg.exe"));
        assert!(ffmpeg_spec.target_binaries.contains(&"ffprobe") || ffmpeg_spec.target_binaries.contains(&"ffprobe.exe"));

        let node_spec = specs.iter().find(|s| s.tool == RequiredTool::Node).unwrap();
        assert!(!node_spec.urls.is_empty());
        assert!(node_spec.urls[0].contains("nodejs.org"));
    }
}

#[test]
fn test_download_specs_tar_gz_for_linux_node() {
    let specs = get_download_specs(false);
    let node_spec = specs.iter().find(|s| s.tool == RequiredTool::Node).unwrap();
    assert_eq!(node_spec.archive_format, Some("tar.gz"));
    assert!(node_spec.urls[0].ends_with(".tar.gz"));
}

#[test]
fn test_ffmpeg_hybrid_split_detection() {
    // ffmpeg and ffprobe both in the local bin directory
    let loc = check_tool(
        RequiredTool::Ffmpeg,
        lookup(None, Some("/bin_dir/ffmpeg")),
        lookup(None, Some("/bin_dir/ffprobe")),
    );
    assert_ne!(loc, ToolLocation::Missing);
    assert_eq!(loc, ToolLocation::LocalBin("/bin_dir/ffmpeg".to_string()));

    // ffmpeg on PATH, ffprobe only locally: still the system one
    let loc = check_tool(
        RequiredTool::Ffmpeg,
        lookup(Some("/usr/bin/ffmpeg"), None),
        lookup(None, Some("/bin_dir/ffprobe")),
    );
    assert_eq!(loc, ToolLocation::SystemPath("/usr/bin/ffmpeg".to_string()));

    // ffprobe missing: ffmpeg alone does not do
    let loc = check_tool(RequiredTool::Ffmpeg, lookup(Some("/usr/bin/ffmpeg"), None), lookup(None, None));
    assert_eq!(loc, ToolLocation::Missing);
}

#[test]
fn test_check_tool_prefers_path_then_local_bin() {
    let none = lookup(None, None);
    assert_eq!(
        check_tool(RequiredTool::YtDlp, lookup(Some("/usr/bin/yt-dlp"), Some("/b/yt-dlp")), none.clone()),
        ToolLocation::SystemPath("/usr/bin/yt-dlp".to_string())
    );
    assert_eq!(
        check_tool(RequiredTool::Node, lookup(None, Some("/b/node")), none.clone()),
        ToolLocation::LocalBin("/b/node".to_string())
    );
    assert_eq!(check_tool(RequiredTool::Node, none.clone(), none), ToolLocation::Missing);
}

#[test]
fn test_check_all_dependencies_reports_missing() {
    let (ok, tools) = check_all_dependencies(
        ToolLocation::SystemPath("/y".to_string()),
        ToolLocation::Missing,
        ToolLocation::LocalBin("/n".to_string()),
    );
    assert!(!ok);
    assert_eq!(tools.len(), 3);
    assert_eq!(tools[1], (RequiredTool::Ffmpeg, ToolLocation::Missing));
    let (ok, _) = check_all_dependencies(
        ToolLocation::SystemPath("/y".to_string()),
        ToolLocation::SystemPath("/f".to_string()),
        ToolLocation::SystemPath("/n".to_string()),
    );
    assert!(ok);
}

#[test]
fn test_file_name_matches_platform_rules() {
    assert!(file_name_matches("ffmpeg", "ffmpeg", false));
    assert!(file_name_matches("ffmpeg.exe", "ffmpeg", false));
    assert!(!file_name_matches("FFMPEG.EXE", "ffmpeg", false));
    assert!(file_name_matches("FFMPEG.EXE", "ffmpeg", true));
    assert!(file_name_matches("FfProbe", "ffprobe", true));
    assert!(!file_name_matches("ffmpeg2", "ffmpeg", true));
}

#[test]
fn test_transfer_output_lines() {
    assert!(matches!(classify_transfer_line("######## 45.5%", true), TransferLine::Progress(4550)));
    assert!(matches!(classify_transfer_line("#=#=#", true), TransferLine::Other));
    match classify_transfer_line("curl: (22) The requested URL returned error: 404", true) {
        TransferLine::Error(e) => assert_eq!(e, "curl: (22) The requested URL returned error: 404"),
        other => panic!("unexpected {:?}", other),
    }
    assert!(matches!(classify_transfer_line("Resolving host...", false), TransferLine::Other));
    assert!(matches!(classify_transfer_line("x 100% y", false), TransferLine::Progress(10000)));
}

#[test]
fn test_feed_transfer_bytes_splits_lines() {
    let mut buf = Vec::new();
    let mut lines = Vec::new();
    for b in b"  12.5%\r \r\nabc\n".iter() {
        if let Some(l) = feed_transfer_byte(&mut buf, *b) {
            lines.push(l);
        }
    }
    // A blank line stays in the buffer and is joined to the next one.
    assert_eq!(lines, vec!["12.5%".to_string(), "abc".to_string()]);
    assert!(buf.is_empty());
}

#[test]
fn test_install_messages() {
    assert_eq!(
        curl_failure_detail(&vec!["a".to_string(), "curl: (6) no host".to_string()], "exit status: 6"),
        "curl error: curl: (6) no host"
    );
    assert_eq!(curl_failure_detail(&Vec::new(), "exit status: 7"), "curl failed with exit status: exit status: 7");
    assert_eq!(install_failure_message(String::new()), "All download attempts failed");
    assert_eq!(install_failure_message("Extraction error: x".to_string()), "Extraction error: x");
    let specs = get_download_specs(false);
    assert_eq!(download_extension(&specs[0], false), "bin");
    assert_eq!(download_extension(&specs[0], true), "exe");
    assert_eq!(download_extension(&specs[1], false), "tar.xz");
    assert_eq!(download_extension(&specs[2], false), "tar.gz");
    assert_eq!(
        located_status(&ToolLocation::SystemPath("/usr/bin/node".to_string())),
        ToolSetupStatus::Found("Found in PATH: /usr/bin/node".to_string())
    );
    assert_eq!(located_status(&ToolLocation::Missing), ToolSetupStatus::PendingDownload);
    assert!(matches!(setup_outcome(None), SetupEvent::Complete));
    assert!(matches!(setup_outcome(Some(("node", "x".to_string()))), SetupEvent::Error { tool: "node", .. }));
}

#[test]
fn test_setup_state_machine_transitions() {
    let tools = vec![
        (RequiredTool::YtDlp, ToolLocation::Missing),
        (RequiredTool::Ffmpeg, ToolLocation::SystemPath("/usr/bin/ffmpeg".to_string())),
        (RequiredTool::Node, ToolLocation::LocalBin("/home/user/.local/share/vidown/bin/node".to_string())),
    ];

    let state = SetupState::new(tools);
    assert_eq!(state.phase, SetupPhase::Downloading);
    assert_eq!(state.tools.len(), 3);

    let yt_item = state.tools.iter().find(|t| t.id == "yt-dlp").unwrap();
    assert_eq!(yt_item.status, ToolSetupStatus::PendingDownload);

    let mut app = App::new_with_setup(state);
    assert_eq!(app.current_screen, CurrentScreen::Setup);

    // Progress update event
    app.handle_setup_event(SetupEvent::Progress {
        tool: "yt-dlp",
        percent: 4550,
    });

    let item = app.setup_state.as_ref().unwrap().tools.iter().find(|t| t.id == "yt-dlp").unwrap();
    assert_eq!(item.status, ToolSetupStatus::Downloading { percent: 4550 });

    // Installed event
    app.handle_setup_event(SetupEvent::ToolStatus {
        tool: "yt-dlp",
        status: ToolSetupStatus::Installed,
    });
    let item = app.setup_state.as_ref().unwrap().tools.iter().find(|t| t.id == "yt-dlp").unwrap();
    assert_eq!(item.status, ToolSetupStatus::Installed);

    // Complete event
    app.handle_setup_event(SetupEvent::Complete);
    assert_eq!(app.setup_state.as_ref().unwrap().phase, SetupPhase::Complete);

    // Press Enter to finish setup and launch main screen
    handle_key_event(&mut app, press_key(KeyCode::Enter));
    assert_eq!(app.current_screen, CurrentScreen::Main);
}

#[test]
fn test_setup_error_handling_retry_continue_quit() {
    let tools = vec![(RequiredTool::YtDlp, ToolLocation::Missing)];
    let state = SetupState::new(tools);
    let mut app = App::new_with_setup(state);

    // Simulate error
    app.handle_setup_event(SetupEvent::Error {
        tool: "yt-dlp",
        error: "Connection refused".to_string(),
    });

    let phase = &app.setup_state.as_ref().unwrap().phase;
    assert!(matches!(phase, SetupPhase::Error(_)));

    // Test 'r' for retry
    handle_key_event(&mut app, press_char('r'));
    assert!(app.take_setup_retry());
    assert_eq!(app.setup_state.as_ref().unwrap().phase, SetupPhase::Downloading);

    // Put into error again
    app.handle_setup_event(SetupEvent::Error {
        tool: "yt-dlp",
        error: "404 Not Found".to_string(),
    });

    // Test 'c' to continue anyway
    handle_key_event(&mut app, press_char('c'));
    assert_eq!(app.current_screen, CurrentScreen::Main);

    // Put into error again
    let mut app_quit = App::new_with_setup(SetupState::new(vec![(RequiredTool::YtDlp, ToolLocation::Missing)]));
    app_quit.handle_setup_event(SetupEvent::Error {
        tool: "yt-dlp",
        error: "Fatal error".to_string(),
    });

    // Test 'q' to quit
    handle_key_event(&mut app_quit, press_char('q'));
    assert!(app_quit.should_quit);
}

#[test]
fn test_setup_screen_guide_scrolling() {
    let tools = vec![(RequiredTool::YtDlp, ToolLocation::Missing)];
    let state = SetupState::new(tools);
    let mut app = App::new_with_setup(state);

    assert_eq!(app.setup_state.as_ref().unwrap().help_scroll, 0);

    // Scroll down via 'j'
    handle_key_event(&mut app, press_char('j'));
    assert_eq!(app.setup_state.as_ref().unwrap().help_scroll, 1);

    // Scroll down via Down arrow
    handle_key_event(&mut app, press_key(KeyCode::Down));
    assert_eq!(app.setup_state.as_ref().unwrap().help_scroll, 2);

    // Scroll up via 'k'
    handle_key_event(&mut app, press_char('k'));
    assert_eq!(app.setup_state.as_ref().unwrap().help_scroll, 1);

    // Scroll up via Up arrow
    handle_key_event(&mut app, press_key(KeyCode::Up));
    assert_eq!(app.setup_state.as_ref().unwrap().help_scroll, 0);

    // Cannot scroll below 0
    handle_key_event(&mut app, press_key(KeyCode::Up));
    assert_eq!(app.setup_state.as_ref().unwrap().help_scroll, 0);
}

#[test]
fn test_persistent_help_modal_shortcuts_and_mutual_exclusion() {
    let mut app = App::new_empty();
    assert!(app.help_modal.is_none());

    // Press '?' in normal mode opens help modal
    handle_key_event(&mut app, press_char('?'));
    assert!(app.help_modal.is_some());

    // Press '?' again closes help modal
    handle_key_event(&mut app, press_char('?'));
    assert!(app.help_modal.is_none());

    // Press F1 opens help modal
    handle_key_event(&mut app, press_key(KeyCode::F(1)));
    assert!(app.help_modal.is_some());

    // Press Esc closes help modal
    handle_key_event(&mut app, press_key(KeyCode::Esc));
    assert!(app.help_modal.is_none());

    // Open path modal, then press F1 -> path modal closes, help modal opens
    app.open_path_modal();
    assert!(app.path_modal.is_some());
    handle_key_event(&mut app, press_key(KeyCode::F(1)));
    assert!(app.path_modal.is_none());
    assert!(app.help_modal.is_some());

    // Open history modal -> help modal closes
    app.open_history_modal();
    assert!(app.history_modal.is_some());
    assert!(app.help_modal.is_none());
}

#[test]
fn test_persistent_help_in_editing_mode() {
    let mut app = App::new_empty();
    // Enter editing mode
    handle_key_event(&mut app, press_char('i'));
    assert_eq!(app.input_mode, video_downloader::app::InputMode::Editing);

    // Typing '?' in editing mode inserts '?' into buffer without opening help modal
    handle_key_event(&mut app, press_char('?'));
    assert_eq!(app.input_buffer, "?");
    assert!(app.help_modal.is_none());

    // Pressing F1 in editing mode opens help modal
    handle_key_event(&mut app, press_key(KeyCode::F(1)));
    assert!(app.help_modal.is_some());

    // Pressing Enter closes help modal
    handle_key_event(&mut app, press_key(KeyCode::Enter));
    assert!(app.help_modal.is_none());
}

#[test]
fn test_setup_screen_page_down_and_up() {
    let tools = vec![(RequiredTool::YtDlp, ToolLocation::Missing)];
    let state = SetupState::new(tools);
    let mut app = App::new_with_setup(state);

    assert_eq!(app.setup_state.as_ref().unwrap().help_scroll, 0);

    // PageDown scrolls down by 5
    handle_key_event(&mut app, press_key(KeyCode::PageDown));
    assert_eq!(app.setup_state.as_ref().unwrap().help_scroll, 5);

    // PageUp scrolls up by 5
    handle_key_event(&mut app, press_key(KeyCode::PageUp));
    assert_eq!(app.setup_state.as_ref().unwrap().help_scroll, 0);
}

#[test]
fn test_help_modal_page_scrolling() {
    let mut app = App::new_empty();
    app.open_help_modal();
    assert!(app.help_modal.is_some());

    // PageDown advances scroll_offset by 5
    handle_key_event(&mut app, press_key(KeyCode::PageDown));
    assert_eq!(app.help_modal.as_ref().unwrap().scroll_offset, 5);

    // PageUp scrolls back by 5
    handle_key_event(&mut app, press_key(KeyCode::PageUp));
    assert_eq!(app.help_modal.as_ref().unwrap().scroll_offset, 0);
}

#[test]
fn test_setup_lifecycle_partial_failure() {
    let tools = vec![
        (RequiredTool::YtDlp, ToolLocation::Missing),
        (RequiredTool::Ffmpeg, ToolLocation::Missing),
    ];
    let state = SetupState::new(tools);
    let mut app = App::new_with_setup(state);

    // First tool fails: yt-dlp
    app.handle_setup_event(SetupEvent::ToolStatus {
        tool: "yt-dlp",
        status: ToolSetupStatus::Failed("Network timeout".to_string()),
    });

    // While setup is continuing, second tool succeeds: ffmpeg
    app.handle_setup_event(SetupEvent::ToolStatus {
        tool: "ffmpeg",
        status: ToolSetupStatus::Installed,
    });

    let setup = app.setup_state.as_ref().unwrap();
    let yt_item = setup.tools.iter().find(|t| t.id == "yt-dlp").unwrap();
    let ffmpeg_item = setup.tools.iter().find(|t| t.id == "ffmpeg").unwrap();
    assert!(matches!(yt_item.status, ToolSetupStatus::Failed(_)));
    assert_eq!(ffmpeg_item.status, ToolSetupStatus::Installed);

    // Worker emits final error event
    app.handle_setup_event(SetupEvent::Error {
        tool: "yt-dlp",
        error: "Network timeout".to_string(),
    });

    assert!(matches!(app.setup_state.as_ref().unwrap().phase, SetupPhase::Error(_)));

    // On retry, only failed tools reset to PendingDownload
    app.retry_setup();
    let setup_retry = app.setup_state.as_ref().unwrap();
    let yt_retry = setup_retry.tools.iter().find(|t| t.id == "yt-dlp").unwrap();
    let ffmpeg_retry = setup_retry.tools.iter().find(|t| t.id == "ffmpeg").unwrap();
    assert_eq!(yt_retry.status, ToolSetupStatus::PendingDownload);
    assert_eq!(ffmpeg_retry.status, ToolSetupStatus::Installed);
}

#[test]
fn test_setup_lifecycle_multiple_consecutive_failures() {
    let tools = vec![
        (RequiredTool::YtDlp, ToolLocation::Missing),
        (RequiredTool::Ffmpeg, ToolLocation::Missing),
        (RequiredTool::Node, ToolLocation::Missing),
    ];
    let state = SetupState::new(tools);
    let mut app = App::new_with_setup(state);

    // First tool fails: yt-dlp
    app.handle_setup_event(SetupEvent::ToolStatus {
        tool: "yt-dlp",
        status: ToolSetupStatus::Failed("yt-dlp download timed out".to_string()),
    });

    // Second tool also fails: ffmpeg
    app.handle_setup_event(SetupEvent::ToolStatus {
        tool: "ffmpeg",
        status: ToolSetupStatus::Failed("ffmpeg extraction failed".to_string()),
    });

    // Third tool succeeds: node
    app.handle_setup_event(SetupEvent::ToolStatus {
        tool: "node",
        status: ToolSetupStatus::Installed,
    });

    // Worker emits final error event with first encountered error
    app.handle_setup_event(SetupEvent::Error {
        tool: "yt-dlp",
        error: "yt-dlp download timed out".to_string(),
    });

    let setup = app.setup_state.as_ref().unwrap();
    let yt_item = setup.tools.iter().find(|t| t.id == "yt-dlp").unwrap();
    let ffmpeg_item = setup.tools.iter().find(|t| t.id == "ffmpeg").unwrap();
    let node_item = setup.tools.iter().find(|t| t.id == "node").unwrap();

    assert!(matches!(yt_item.status, ToolSetupStatus::Failed(_)));
    assert!(matches!(ffmpeg_item.status, ToolSetupStatus::Failed(_)));
    assert_eq!(node_item.status, ToolSetupStatus::Installed);

    // Ensure first_error is preserved in the setup phase error
    match &setup.phase {
        SetupPhase::Error(msg) => {
            assert!(msg.contains("yt-dlp"));
            assert!(msg.contains("yt-dlp download timed out"));
            assert!(!msg.contains("ffmpeg"));
        }
        _ => panic!("Expected SetupPhase::Error"),
    }

    // On retry, both failed tools reset to PendingDownload, but Installed tool remains Installed
    app.retry_setup();
    assert!(app.take_setup_retry());

    let setup_retry = app.setup_state.as_ref().unwrap();
    let yt_retry = setup_retry.tools.iter().find(|t| t.id == "yt-dlp").unwrap();
    let ffmpeg_retry = setup_retry.tools.iter().find(|t| t.id == "ffmpeg").unwrap();
    let node_retry = setup_retry.tools.iter().find(|t| t.id == "node").unwrap();

    assert_eq!(yt_retry.status, ToolSetupStatus::PendingDownload);
    assert_eq!(ffmpeg_retry.status, ToolSetupStatus::PendingDownload);
    assert_eq!(node_retry.status, ToolSetupStatus::Installed);
}


#[test]
fn test_extraction_plan_by_format_and_platform() {
    assert_eq!(extraction_plan("tar.xz", false), vec![Extractor::Tar, Extractor::PythonTarfile]);
    assert_eq!(extraction_plan("tar.gz", true), vec![Extractor::Tar]);
    assert_eq!(
        extraction_plan("zip", false),
        vec![Extractor::Tar, Extractor::Unzip, Extractor::PythonZipfile]
    );
    assert_eq!(extraction_plan("zip", true), vec![Extractor::Tar, Extractor::ExpandArchive]);
    assert!(extraction_plan("rar", false).is_empty());
    assert_eq!(extraction_failure("tar.xz", false), "Failed to extract tar.xz archive with tar or python3");
    assert_eq!(extraction_failure("zip", false), "Failed to extract zip archive with tar, unzip, or python3");
    assert_eq!(extraction_failure("rar", false), "Unsupported archive format: rar");
}

#[test]
fn test_scripts_escape_single_quotes() {
    assert_eq!(
        python_extract_script(false, "/tmp/it's.tar.xz", "/out"),
        "import tarfile; tf = tarfile.open('/tmp/it\\'s.tar.xz'); tf.extractall('/out'); tf.close()"
    );
    assert_eq!(
        python_extract_script(true, "/a.zip", "/o'k"),
        "import zipfile; zf = zipfile.ZipFile('/a.zip'); zf.extractall('/o\\'k'); zf.close()"
    );
    assert_eq!(
        expand_archive_script("C:\\it's.zip", "C:\\out"),
        "Expand-Archive -Path 'C:\\it''s.zip' -DestinationPath 'C:\\out' -Force"
    );
    assert_eq!(
        powershell_download_script("https://x/a'b", "C:\\d"),
        "[Net.ServicePointManager]::SecurityProtocol = [Net.SecurityProtocolType]::Tls12; (New-Object System.Net.WebClient).DownloadFile('https://x/a''b', 'C:\\d')"
    );
}

#[test]
fn test_app_new_with_test_deps_flag() {
    // With the dependency check run, the app starts on the setup screen or the main one.
    let app = App::new(None, None, Some(vec![(RequiredTool::YtDlp, ToolLocation::Missing)]));
    assert!(matches!(app.current_screen, CurrentScreen::Setup | CurrentScreen::Main));
    assert_eq!(app.current_screen, CurrentScreen::Setup);
}

#[test]
fn test_install_attempts_try_urls_in_order_until_one_installs() {
    let urls = vec!["https://a/1", "https://b/2", "https://c/3"];
    let mut attempts = InstallAttempts::new();
    assert_eq!(attempts.next_url(&urls), Some("https://a/1"));
    attempts.record(Err("HTTP 404".to_string()));
    assert_eq!(attempts.next_url(&urls), Some("https://b/2"));
    attempts.record(Ok(()));
    assert_eq!(attempts.next_url(&urls), None);
    assert_eq!(attempts.outcome(), Ok(()));
}

#[test]
fn test_install_attempts_keep_the_last_error() {
    let urls = vec!["https://a/1", "https://b/2"];
    let mut attempts = InstallAttempts::new();
    while let Some(url) = attempts.next_url(&urls) {
        attempts.record(Err(format!("failed: {}", url)));
    }
    assert_eq!(attempts.tried, 2);
    assert_eq!(attempts.outcome(), Err("failed: https://b/2".to_string()));

    let none: Vec<&'static str> = Vec::new();
    let attempts = InstallAttempts::new();
    assert_eq!(attempts.next_url(&none), None);
    assert_eq!(attempts.outcome(), Err("All download attempts failed".to_string()));
}

#[test]
fn test_setup_run_reports_the_first_failed_tool() {
    let mut run = SetupRun::new();
    run.record_install("yt-dlp", Ok(()));
    run.record_install("ffmpeg", Err("no network".to_string()));
    run.record_install("node", Err("disk full".to_string()));
    match run.finish() {
        SetupEvent::Error { tool, error } => {
            assert_eq!(tool, "ffmpeg");
            assert_eq!(error, "no network");
        }
        _ => panic!("expected an error event"),
    }

    let mut run = SetupRun::new();
    run.record_install("node", Ok(()));
    assert!(matches!(run.finish(), SetupEvent::Complete));
}

/// Lists `dir` in a tree given as (path, is_dir) pairs, in the order given.
fn list_in(tree: &[(String, bool)], dir: &str) -> Vec<ListedEntry> {
    tree.iter()
        .filter(|(path, _)| match path.rsplit_once('/') {
            Some((parent, _)) => parent == dir,
            None => false,
        })
        .map(|(path, is_dir)| ListedEntry {
            path: path.clone(),
            name: path.rsplit_once('/').unwrap().1.to_string(),
            is_file: !is_dir,
            is_dir: *is_dir,
        })
        .collect()
}

/// Runs a search from `root` over the tree, reading directories as it asks.
fn search_tree(tree: &[(String, bool)], root: &str, target: &str) -> Option<String> {
    let mut search = BinarySearch::new(root.to_string());
    while let Some((front, _)) = search.pending.first() {
        let listing = list_in(tree, &front.clone());
        if let Some(found) = search.step(&listing, target, false) {
            return Some(found);
        }
    }
    None
}

#[test]
fn test_find_file_recursive_nested() {
    let tree = vec![
        ("/tmp/find_nested/a".to_string(), true),
        ("/tmp/find_nested/a/b".to_string(), true),
        ("/tmp/find_nested/a/b/bin".to_string(), true),
        ("/tmp/find_nested/a/b/bin/ffmpeg".to_string(), false),
    ];
    let found = search_tree(&tree, "/tmp/find_nested", "ffmpeg");
    assert!(found.is_some());
    assert_eq!(found.unwrap(), "/tmp/find_nested/a/b/bin/ffmpeg");

    let not_found = search_tree(&tree, "/tmp/find_nested", "non_existent");
    assert!(not_found.is_none());
}

#[test]
fn test_find_file_recursive_depth_bound() {
    let mut tree = Vec::new();
    let mut curr = "/tmp/depth_bound".to_string();
    for i in 0..15 {
        curr = format!("{}/level_{}", curr, i);
        tree.push((curr.clone(), true));
    }
    tree.push((format!("{}/deep_target.bin", curr), false));

    // With max_depth = 10, searching from the root should not find a file 15 levels deep
    let not_found = search_tree(&tree, "/tmp/depth_bound", "deep_target.bin");
    assert!(not_found.is_none());
}

#[test]
fn test_search_reaches_exactly_the_depth_bound() {
    // A file in a directory MAX_SEARCH_DEPTH levels down is found; one level deeper is not.
    let mut tree = Vec::new();
    let mut curr = "/r".to_string();
    for i in 0..MAX_SEARCH_DEPTH + 1 {
        curr = format!("{}/d{}", curr, i);
        tree.push((curr.clone(), true));
        tree.push((format!("{}/at_{}", curr, i + 1), false));
    }
    assert_eq!(search_tree(&tree, "/r", "at_10"), Some("/r/d0/d1/d2/d3/d4/d5/d6/d7/d8/d9/at_10".to_string()));
    assert_eq!(search_tree(&tree, "/r", "at_11"), None);
}

#[test]
fn test_search_step_prefers_files_then_goes_depth_first() {
    let tree = vec![
        ("/r/x".to_string(), true),
        ("/r/x/inner".to_string(), true),
        ("/r/x/inner/tool".to_string(), false),
        ("/r/y".to_string(), true),
        ("/r/y/tool".to_string(), false),
        ("/r/tool.exe".to_string(), false),
    ];
    // The root's own file comes before anything in its subdirectories.
    assert_eq!(search_tree(&tree, "/r", "tool"), Some("/r/tool.exe".to_string()));

    // Without it, the first subdirectory is searched to the bottom before the second.
    let without: Vec<(String, bool)> = tree.into_iter().filter(|(p, _)| p != "/r/tool.exe").collect();
    assert_eq!(search_tree(&without, "/r", "tool"), Some("/r/x/inner/tool".to_string()));

    // One step replaces the front directory by its subdirectories, one level deeper.
    let mut search = BinarySearch::new("/r".to_string());
    assert_eq!(search.step(&list_in(&without, "/r"), "tool", false), None);
    assert_eq!(search.pending, vec![("/r/x".to_string(), 1), ("/r/y".to_string(), 1)]);
}
