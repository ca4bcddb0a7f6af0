use video_downloader::config::{
    config_content_for_save, format_config, format_config_full, get_config_path,
    get_history_path, get_user_bin_dir, is_test_run, join_path, load_config, load_history_limit,
    parse_config_history_limit, parse_config_output_dir, Environment, DEFAULT_HISTORY_LIMIT,
};

#[test]
fn test_parse_config_output_dir_double_quotes() {
    let toml = r#"
# Vidown Config
output_dir = "C:\\Users\\Hp\\Downloads"
"#;
    assert_eq!(
        parse_config_output_dir(toml),
        Some("C:\\Users\\Hp\\Downloads".to_string())
    );
}

#[test]
fn test_parse_config_output_dir_single_quotes() {
    let toml = r#"
# Vidown Config
output_dir = '/home/user/downloads'
"#;
    assert_eq!(
        parse_config_output_dir(toml),
        Some("/home/user/downloads".to_string())
    );
}

#[test]
fn test_parse_config_output_dir_ignore_comments_and_empty() {
    let toml = r#"
# output_dir = "/ignored/comment"

output_dir = "./my_downloads"
"#;
    assert_eq!(
        parse_config_output_dir(toml),
        Some("./my_downloads".to_string())
    );
}

#[test]
fn test_format_and_parse_roundtrip_with_backslashes() {
    let original = "C:\\Program Files\\Vidown\\downloads";
    let formatted = format_config(original);
    let parsed = parse_config_output_dir(&formatted);
    assert_eq!(parsed, Some(original.to_string()));
}

#[test]
fn test_parse_config_output_dir_inline_comments_double_quotes() {
    let toml = r#"
output_dir = "D:\\Media\\Downloads" # trailing comment here
"#;
    assert_eq!(
        parse_config_output_dir(toml),
        Some("D:\\Media\\Downloads".to_string())
    );
}

#[test]
fn test_parse_config_output_dir_inline_comments_single_quotes() {
    let toml = r#"
output_dir = '/custom/path/downloads' # trailing note
"#;
    assert_eq!(
        parse_config_output_dir(toml),
        Some("/custom/path/downloads".to_string())
    );
}

#[test]
fn test_parse_config_output_dir_inline_comments_unquoted() {
    let toml = r#"
output_dir = ./downloads_custom # unquoted path
"#;
    assert_eq!(
        parse_config_output_dir(toml),
        Some("./downloads_custom".to_string())
    );
}

#[test]
fn test_parse_config_output_dir_escaped_double_quotes() {
    let toml = r#"
output_dir = "C:\\path\\\"quoted\"\\folder"
"#;
    assert_eq!(
        parse_config_output_dir(toml),
        Some("C:\\path\\\"quoted\"\\folder".to_string())
    );
}

#[test]
fn test_parse_config_output_dir_empty_or_whitespace_returns_none() {
    assert_eq!(parse_config_output_dir("output_dir = \"\""), None);
    assert_eq!(parse_config_output_dir("output_dir = \"   \""), None);
    assert_eq!(parse_config_output_dir("output_dir = ''"), None);
    assert_eq!(parse_config_output_dir("output_dir = "), None);
}


fn unix_env() -> Environment {
    Environment {
        windows: false,
        vidown_config_dir: None,
        vidown_bin_dir: None,
        xdg_config_home: None,
        xdg_data_home: None,
        home: Some("/home/user".to_string()),
        appdata: None,
        local_appdata: None,
        user_profile: None,
        home_drive: None,
        home_path: None,
        temp_dir: "/tmp".to_string(),
    }
}

#[test]
fn test_save_then_load_keeps_directory_and_limit() {
    let existing = "output_dir = \"/old\"\nhistory_limit = 75\n";
    let written = config_content_for_save(Some(existing), "D:\\Media\\CustomDownloads");
    assert_eq!(load_config(Some(&written)), Some("D:\\Media\\CustomDownloads".to_string()));
    assert_eq!(load_history_limit(Some(&written)), 75);

    let fresh = config_content_for_save(None, "/x");
    assert_eq!(parse_config_history_limit(&fresh), Some(DEFAULT_HISTORY_LIMIT));
}

#[test]
fn test_load_config_without_file() {
    assert_eq!(load_config(None), None);
    assert_eq!(load_history_limit(None), DEFAULT_HISTORY_LIMIT);
}

#[test]
fn test_history_limit_has_a_floor() {
    assert_eq!(load_history_limit(Some("history_limit = 10")), DEFAULT_HISTORY_LIMIT);
    assert_eq!(load_history_limit(Some("history_limit = 500")), 500);
    assert_eq!(load_history_limit(Some("history_limit = lots")), DEFAULT_HISTORY_LIMIT);
}

#[test]
fn test_format_config_full_exact_text() {
    let text = format_config_full("/my/out", 120);
    assert!(text.contains("output_dir = \"/my/out\""));
    assert!(text.contains("history_limit = 120"));
    assert_eq!(format_config("/a"), format_config_full("/a", DEFAULT_HISTORY_LIMIT));
}

#[test]
fn test_get_config_path_structure() {
    let env = unix_env();
    assert_eq!(get_config_path(&env), Some("/home/user/.config/vidown/config.toml".to_string()));

    let mut xdg = unix_env();
    xdg.xdg_config_home = Some("/xdg/".to_string());
    assert_eq!(get_config_path(&xdg), Some("/xdg/vidown/config.toml".to_string()));

    let mut custom = unix_env();
    custom.vidown_config_dir = Some("/custom".to_string());
    assert_eq!(get_config_path(&custom), Some("/custom/config.toml".to_string()));

    let mut blank = unix_env();
    blank.home = Some("   ".to_string());
    assert_eq!(get_config_path(&blank), None);

    let mut win = unix_env();
    win.windows = true;
    win.home = None;
    win.appdata = Some("C:\\Users\\Hp\\AppData\\Roaming".to_string());
    assert_eq!(
        get_config_path(&win),
        Some("C:\\Users\\Hp\\AppData\\Roaming\\vidown\\config.toml".to_string())
    );
}

#[test]
fn test_get_history_path_next_to_config() {
    assert_eq!(
        get_history_path(Some("/home/user/.config/vidown/config.toml")),
        Some("/home/user/.config/vidown/history.json".to_string())
    );
    assert_eq!(get_history_path(None), None);
}

#[test]
fn test_get_user_bin_dir_choices() {
    let env = unix_env();
    assert_eq!(get_user_bin_dir(&env), "/home/user/.local/share/vidown/bin");

    let mut custom = unix_env();
    custom.vidown_bin_dir = Some("  /opt/my_bin  ".to_string());
    assert_eq!(get_user_bin_dir(&custom), "/opt/my_bin");

    let mut nothing = unix_env();
    nothing.home = None;
    assert_eq!(get_user_bin_dir(&nothing), "/tmp/vidown/bin");
}

#[test]
fn test_join_path_separators() {
    assert_eq!(join_path("/a", "b", false), "/a/b");
    assert_eq!(join_path("/a/", "b", false), "/a/b");
    assert_eq!(join_path("", "b", false), "b");
    assert_eq!(join_path("C:\\a", "b", true), "C:\\a\\b");
}

#[test]
fn test_is_test_run_detection() {
    assert!(is_test_run(true, None));
    assert!(is_test_run(false, Some("/repo/target/debug/deps/app_tests-1234")));
    assert!(is_test_run(false, Some("C:\\repo\\target\\debug\\deps\\t.exe")));
    assert!(!is_test_run(false, Some("/usr/local/bin/vidown")));
    assert!(!is_test_run(false, None));
}

#[test]
fn test_save_and_load_config_file_roundtrip() {
    // What saving writes over an existing file, and what loading reads back from it.
    let test_path = "D:\\Media\\CustomDownloads";
    let written = config_content_for_save(None, test_path);
    assert_eq!(load_config(Some(&written)), Some(test_path.to_string()));
}

#[test]
fn test_load_config_non_existent() {
    assert_eq!(load_config(None), None);
}

#[test]
fn test_load_history_limit_from_path() {
    assert_eq!(load_history_limit(Some("history_limit = 88\n")), 88);
}

#[test]
fn test_get_user_bin_dir_custom_override() {
    let mut env = unix_env();
    env.vidown_bin_dir = Some("/tmp/vidown_deps_test_custom_override/my_custom_bin".to_string());
    assert_eq!(get_user_bin_dir(&env), "/tmp/vidown_deps_test_custom_override/my_custom_bin");
    env.vidown_bin_dir = Some("   ".to_string());
    assert_eq!(get_user_bin_dir(&env), "/home/user/.local/share/vidown/bin");
}
