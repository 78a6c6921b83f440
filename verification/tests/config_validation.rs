//! Tests of configuration checks and of the builder.

use heisenberg::routing::config::{
    first_repeated_pattern, GlobalSettings, Heisenberg, SpaRouteConfig,
};
use heisenberg::routing::mode::Mode;
use heisenberg::timing::TimeSpan;
use heisenberg::utils::package_json::InferredConfig;
use heisenberg::HeisenbergError;

fn route(pattern: &str, url: &str, command: &[&str]) -> SpaRouteConfig {
    SpaRouteConfig {
        pattern: pattern.to_string(),
        embed_dir: "./dist".to_string(),
        dev_proxy_url: url.to_string(),
        dev_command: command.iter().map(|item| item.to_string()).collect(),
        working_dir: ".".to_string(),
        fallback_file: None,
        open_browser: false,
    }
}

fn message_of(outcome: Result<(), HeisenbergError>) -> (String, String) {
    match outcome {
        Err(HeisenbergError::Config { message, hint }) => (message, hint),
        other => panic!("expected a configuration error, got {:?}", other),
    }
}

#[test]
fn acceptable_route_passes() {
    assert!(route("/*", "http://localhost:3000", &["npm"]).validate().is_ok());
    assert!(route("/x", "https://dev.example", &["yarn", "dev"]).validate().is_ok());
}

#[test]
fn empty_pattern_is_refused_first() {
    let (message, hint) = message_of(route("", "", &[]).validate());
    assert_eq!(message, "Route pattern cannot be empty");
    assert!(hint.starts_with("• Use '/*' to match all paths"));
}

#[test]
fn empty_command_is_refused_before_the_address() {
    let (message, hint) = message_of(route("/*", "", &[]).validate());
    assert_eq!(message, "Development command cannot be empty");
    assert!(hint.contains(".dev_command()"));
}

#[test]
fn empty_address_is_refused() {
    let (message, hint) = message_of(route("/*", "", &["npm"]).validate());
    assert_eq!(message, "Development proxy URL cannot be empty");
    assert!(hint.contains(".dev_server()"));
}

#[test]
fn address_needs_an_http_scheme() {
    let (message, hint) = message_of(route("/*", "localhost:3000", &["npm"]).validate());
    assert_eq!(
        message,
        "Development proxy URL must start with http:// or https://: localhost:3000"
    );
    assert!(hint.contains("https://"));
    let (message, _) = message_of(route("/*", "ftp://host", &["npm"]).validate());
    assert_eq!(message, "Development proxy URL must start with http:// or https://: ftp://host");
    let (message, _) = message_of(route("/*", "http:/", &["npm"]).validate());
    assert_eq!(message, "Development proxy URL must start with http:// or https://: http:/");
}

#[test]
fn duplicate_is_reported_before_a_bad_route() {
    let config = Heisenberg {
        routes: vec![
            route("", "http://a", &["npm"]),
            route("/a", "http://a", &["npm"]),
            route("/a", "http://a", &["npm"]),
        ],
        global_settings: GlobalSettings::default(),
        mode_override: None,
    };
    let (message, hint) = message_of(config.validate());
    assert_eq!(message, "Duplicate route pattern: /a");
    assert!(hint.contains("Remove duplicate .spa() calls"));
}

#[test]
fn first_bad_route_is_reported() {
    let config = Heisenberg {
        routes: vec![
            route("/a", "http://a", &["npm"]),
            route("/b", "", &["npm"]),
            route("/c", "http://a", &[]),
        ],
        global_settings: GlobalSettings::default(),
        mode_override: None,
    };
    let (message, _) = message_of(config.validate());
    assert_eq!(message, "Development proxy URL cannot be empty");
}

#[test]
fn configuration_without_routes_is_acceptable() {
    assert!(Heisenberg::new().validate().is_ok());
}

#[test]
fn first_repeat_is_found() {
    let routes = vec![
        route("/a", "u", &[]),
        route("/b", "u", &[]),
        route("/c", "u", &[]),
        route("/b", "u", &[]),
        route("/a", "u", &[]),
    ];
    assert_eq!(first_repeated_pattern(&routes), Some(3));
    assert_eq!(first_repeated_pattern(&routes[..3].to_vec()), None);
    assert_eq!(first_repeated_pattern(&Vec::new()), None);
}

#[test]
fn defaults_are_five_and_thirty_seconds() {
    let settings = GlobalSettings::default();
    assert_eq!(settings.health_check_interval, TimeSpan::from_secs(5));
    assert_eq!(settings.proxy_timeout, TimeSpan::from_secs(30));
    assert_eq!(settings.process_startup_timeout, TimeSpan::from_secs(30));
    let config = Heisenberg::new();
    assert_eq!(*config.global_settings(), settings);
    assert_eq!(config.mode_override, None);
}

#[test]
fn settings_are_overridden_one_at_a_time() {
    let config = Heisenberg::new()
        .process_startup_timeout(TimeSpan::from_secs(90))
        .mode_override(Mode::Production);
    assert_eq!(config.global_settings.process_startup_timeout, TimeSpan::from_secs(90));
    assert_eq!(config.global_settings.proxy_timeout, TimeSpan::from_secs(30));
    assert_eq!(config.global_settings.health_check_interval, TimeSpan::from_secs(5));
    assert_eq!(config.mode_override, Some(Mode::Production));
}

#[test]
fn builder_changes_only_the_current_route() {
    let config = Heisenberg::new()
        .spa("./one")
        .pattern("/one/*")
        .spa("./two")
        .pattern("/two/*")
        .dev_server("http://localhost:4000")
        .open_browser(true)
        .build();
    assert_eq!(config.routes.len(), 2);
    assert_eq!(config.routes[0].pattern, "/one/*");
    assert_eq!(config.routes[0].dev_proxy_url, "http://localhost:5173");
    assert!(!config.routes[0].open_browser);
    assert_eq!(config.routes[1].pattern, "/two/*");
    assert_eq!(config.routes[1].dev_proxy_url, "http://localhost:4000");
    assert!(config.routes[1].open_browser);
    assert!(config.validate().is_ok());
}

#[test]
fn new_route_takes_what_was_inferred() {
    let inferred = InferredConfig {
        working_dir: "/project".to_string(),
        package_json_path: "/project/package.json".to_string(),
        dev_command: vec!["yarn".to_string(), "start".to_string()],
        dev_port: 3001,
        dev_url: "http://localhost:3001".to_string(),
    };
    let config = Heisenberg::new().spa_with("/project/dist", inferred).build();
    let route = &config.routes[0];
    assert_eq!(route.pattern, "/*");
    assert_eq!(route.embed_dir, "/project/dist");
    assert_eq!(route.dev_proxy_url, "http://localhost:3001");
    assert_eq!(route.dev_command, vec!["yarn", "start"]);
    assert_eq!(route.working_dir, "/project");
    assert_eq!(route.fallback_file, Some("index.html".to_string()));
    assert!(!route.open_browser);
}

#[test]
fn copies_are_equal_to_their_source() {
    let config = Heisenberg::new().spa("./dist").dev_command(&["a", "b"]).build();
    let copy = config.clone();
    assert_eq!(copy.routes.len(), 1);
    assert_eq!(copy.routes[0].pattern, config.routes[0].pattern);
    assert_eq!(copy.routes[0].dev_command, vec!["a", "b"]);
    assert_eq!(copy.routes[0].fallback_file, config.routes[0].fallback_file);
    assert_eq!(copy.global_settings, config.global_settings);
}

#[test]
fn override_wins_over_detection() {
    let free = Heisenberg::new();
    assert_eq!(free.mode_or(Mode::Development), Mode::Development);
    assert_eq!(free.mode_or(Mode::Production), Mode::Production);
    let fixed = Heisenberg::new().mode_override(Mode::Production);
    assert_eq!(fixed.mode_or(Mode::Development), Mode::Production);
    assert_eq!(fixed.mode_or(Mode::Production), Mode::Production);
}
