//! Tests of mode detection.

use heisenberg::routing::mode::{detect_mode, mode_for_keyword, Mode};

#[test]
fn test_mode_detection_env_override_production() {
    assert_eq!(detect_mode(Some("production"), true), Mode::Production);
}

#[test]
fn test_mode_detection_env_override_development() {
    assert_eq!(detect_mode(Some("development"), false), Mode::Development);
}

#[test]
fn test_mode_detection_aliases() {
    for alias in ["prod", "embed"] {
        assert_eq!(
            detect_mode(Some(alias), true),
            Mode::Production,
            "Failed for alias: {}",
            alias
        );
    }

    for alias in ["dev", "proxy"] {
        assert_eq!(
            detect_mode(Some(alias), false),
            Mode::Development,
            "Failed for alias: {}",
            alias
        );
    }
}

#[test]
fn test_mode_detection_default_fallback() {
    assert_eq!(detect_mode(None, true), Mode::Development);
    assert_eq!(detect_mode(None, false), Mode::Production);
}

#[test]
fn setting_is_read_without_regard_to_case() {
    assert_eq!(detect_mode(Some("PRODUCTION"), true), Mode::Production);
    assert_eq!(detect_mode(Some("Embed"), true), Mode::Production);
    assert_eq!(detect_mode(Some("PrOxY"), false), Mode::Development);
    assert_eq!(detect_mode(Some("DEV"), false), Mode::Development);
}

#[test]
fn unrecognised_setting_counts_as_absent() {
    assert_eq!(detect_mode(Some("staging"), true), Mode::Development);
    assert_eq!(detect_mode(Some("staging"), false), Mode::Production);
    assert_eq!(detect_mode(Some(""), false), Mode::Production);
    assert_eq!(detect_mode(Some("production "), true), Mode::Development);
}

#[test]
fn keyword_is_taken_as_it_stands() {
    assert_eq!(mode_for_keyword("prod", Mode::Development), Mode::Production);
    assert_eq!(mode_for_keyword("PROD", Mode::Development), Mode::Development);
    assert_eq!(mode_for_keyword("proxy", Mode::Production), Mode::Development);
    assert_eq!(mode_for_keyword("other", Mode::Production), Mode::Production);
}
