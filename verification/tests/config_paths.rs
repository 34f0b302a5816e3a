//! Tests of the configuration snapshot and the path containment checker.

use cks_policy::config::{
    allowed_script_bases, command_policy_mode, resolve_work_dir, PolicyConfig, PolicyMode,
};
use cks_policy::paths::{is_path_within_any_base, is_path_within_base};

#[test]
fn policy_mode_parsing() {
    assert_eq!(command_policy_mode(Some("legacy")), PolicyMode::Legacy);
    assert_eq!(command_policy_mode(Some("LEGACY")), PolicyMode::Legacy);
    assert_eq!(command_policy_mode(Some("whitelist")), PolicyMode::Whitelist);
    assert_eq!(command_policy_mode(Some("anything")), PolicyMode::Whitelist);
    assert_eq!(command_policy_mode(None), PolicyMode::Whitelist);
}

#[test]
fn work_dir_resolution_order() {
    assert_eq!(
        resolve_work_dir(Some("/w".to_string()), Some("/p".to_string()), None, false),
        "/w"
    );
    assert_eq!(
        resolve_work_dir(None, Some("/p".to_string()), Some("/h".to_string()), false),
        "/p"
    );
    assert_eq!(resolve_work_dir(None, None, Some("/h".to_string()), false), "/h");
    assert_eq!(resolve_work_dir(None, None, None, false), "/");
    assert_eq!(resolve_work_dir(None, None, None, true), "C:\\");
}

#[test]
fn script_bases_follow_the_environment_snapshot() {
    let cfg = PolicyConfig {
        mode: PolicyMode::Whitelist,
        user_profile: Some("C:\\Users\\u".to_string()),
        temp_dir: Some("C:\\Temp".to_string()),
        public_dir: Some("C:\\Users\\Public".to_string()),
    };
    let bases = allowed_script_bases("C:\\work", &cfg);
    assert_eq!(
        bases,
        vec![
            "C:\\work".to_string(),
            "C:\\Users\\u".to_string(),
            "C:\\Users\\u\\Downloads".to_string(),
            "C:\\Users\\u\\Desktop".to_string(),
            "C:\\Temp".to_string(),
            "C:\\Users\\Public".to_string(),
        ]
    );

    let bare = PolicyConfig {
        mode: PolicyMode::Whitelist,
        user_profile: Some("/home/u".to_string()),
        temp_dir: None,
        public_dir: None,
    };
    let bases2 = allowed_script_bases("/work", &bare);
    assert_eq!(
        bases2,
        vec![
            "/work".to_string(),
            "/home/u".to_string(),
            "/home/u/Downloads".to_string(),
            "/home/u/Desktop".to_string(),
        ]
    );
}

#[test]
fn containment_accepts_inside_and_rejects_outside() {
    // "." always canonicalizes to the working directory itself.
    assert!(is_path_within_base(".", "."));
    // The parent directory is outside the working directory.
    assert!(!is_path_within_base("..", "."));
    // The filesystem root is outside too (for any non-root working
    // directory, which is where these tests run).
    assert!(!is_path_within_base("/", "."));
}

#[test]
fn containment_fails_closed_on_missing_paths() {
    assert!(!is_path_within_base("no_such_file_here.py", "."));
    assert!(!is_path_within_base(".", "no_such_base_dir"));
}

#[test]
fn containment_over_base_sets() {
    let none: Vec<String> = vec![];
    assert!(!is_path_within_any_base(".", &none));
    let bases = vec!["/definitely_missing".to_string(), ".".to_string()];
    assert!(is_path_within_any_base(".", &bases));
}
