//! Tests of path spelling, text helpers and the browser command.

use heisenberg::text::{chars_of, clone_texts, find_text, has_prefix, same_text, starts_with};
use heisenberg::utils::browser::{browser_command, browser_failure, Platform};
use heisenberg::utils::paths::normalize_path;
use heisenberg::HeisenbergError;

fn chars(text: &str) -> Vec<char> {
    text.chars().collect()
}

#[test]
fn backslashes_become_slashes() {
    assert_eq!(normalize_path("a\\b\\c.txt"), "a/b/c.txt");
    assert_eq!(normalize_path("C:\\Users\\me"), "C:/Users/me");
    assert_eq!(normalize_path("already/fine"), "already/fine");
    assert_eq!(normalize_path(""), "");
    assert_eq!(normalize_path("\\"), "/");
    assert_eq!(normalize_path("é\\ü"), "é/ü");
}

#[test]
fn browser_command_depends_on_the_platform() {
    assert_eq!(browser_command(Platform::MacOs, "http://x").unwrap(), vec!["open", "http://x"]);
    assert_eq!(
        browser_command(Platform::Windows, "http://x").unwrap(),
        vec!["cmd", "/c", "start", "", "http://x"]
    );
    assert_eq!(browser_command(Platform::Linux, "http://x").unwrap(), vec!["xdg-open", "http://x"]);
    match browser_command(Platform::Other, "http://x") {
        Err(HeisenbergError::Config { message, hint }) => {
            assert_eq!(message, "Browser opening not supported on this platform");
            assert!(hint.contains("Open the URL manually"));
        }
        other => panic!("expected a configuration error, got {:?}", other),
    }
}

#[test]
fn browser_failure_names_the_platform() {
    match browser_failure(Platform::Linux, "not found") {
        HeisenbergError::Config { message, hint } => {
            assert_eq!(message, "Failed to open browser on Linux: not found");
            assert!(hint.contains("xdg-open"));
        }
        other => panic!("expected a configuration error, got {:?}", other),
    }
    match browser_failure(Platform::MacOs, "denied") {
        HeisenbergError::Config { message, hint } => {
            assert_eq!(message, "Failed to open browser on macOS: denied");
            assert!(hint.contains("'open' command"));
        }
        other => panic!("expected a configuration error, got {:?}", other),
    }
    match browser_failure(Platform::Windows, "denied") {
        HeisenbergError::Config { message, hint } => {
            assert_eq!(message, "Failed to open browser on Windows: denied");
            assert!(hint.contains("'start' command"));
        }
        other => panic!("expected a configuration error, got {:?}", other),
    }
}

#[test]
fn texts_are_compared_and_searched() {
    assert_eq!(chars_of("héllo"), chars("héllo"));
    assert!(same_text("abc", "abc"));
    assert!(!same_text("abc", "abd"));
    assert!(!same_text("abc", "ab"));
    assert!(same_text("", ""));
    assert!(same_text("é", "é"));
    assert!(has_prefix("http://x", "http://"));
    assert!(!has_prefix("http:/", "http://"));
    assert!(has_prefix("x", ""));
    assert!(starts_with(&chars("/admin/x"), &chars("/admin")));
    assert!(!starts_with(&chars("/adm"), &chars("/admin")));
    assert_eq!(find_text(&chars("a --port 80"), &chars("--port ")), Some(2));
    assert_eq!(find_text(&chars("aaa"), &chars("aa")), Some(0));
    assert_eq!(find_text(&chars("abc"), &chars("c")), Some(2));
    assert_eq!(find_text(&chars("abc"), &chars("")), Some(0));
    assert_eq!(find_text(&chars(""), &chars("")), Some(0));
    assert_eq!(find_text(&chars("abc"), &chars("abcd")), None);
    assert_eq!(find_text(&chars("abc"), &chars("x")), None);
    assert_eq!(clone_texts(&vec!["a".to_string(), "b".to_string()]), vec!["a", "b"]);
}
