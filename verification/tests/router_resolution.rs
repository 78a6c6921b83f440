//! Further tests of resolution: specificity, boundaries, errors.

use heisenberg::routing::config::SpaRouteConfig;
use heisenberg::routing::mode::Mode;
use heisenberg::routing::router::{path_matches, PathMatcher, RouteHandler, Router, RANK_CEILING};
use heisenberg::HeisenbergError;

fn route(pattern: &str, embed_dir: &str) -> SpaRouteConfig {
    SpaRouteConfig {
        pattern: pattern.to_string(),
        embed_dir: embed_dir.to_string(),
        dev_proxy_url: "http://localhost:3000".to_string(),
        dev_command: vec!["npm".to_string(), "run".to_string(), "dev".to_string()],
        working_dir: ".".to_string(),
        fallback_file: None,
        open_browser: false,
    }
}

fn resolve(router: &mut Router, path: &str) -> Option<String> {
    router.match_route(path).map(|found| found.embed_dir.clone())
}

fn chars(text: &str) -> Vec<char> {
    text.chars().collect()
}

#[test]
fn routes_resolve_by_prefix_and_catch_all() {
    let routes = vec![route("/admin/*", "A"), route("/app/*", "B"), route("/*", "C")];
    let mut router = Router::new(routes, Mode::Production).unwrap();
    assert_eq!(resolve(&mut router, "/admin/x"), Some("A".to_string()));
    assert_eq!(resolve(&mut router, "/app/y"), Some("B".to_string()));
    assert_eq!(resolve(&mut router, "/z"), Some("C".to_string()));
}

#[test]
fn exact_beats_prefix_beats_catch_all() {
    let routes = vec![route("/admin/users", "X"), route("/admin/*", "Y"), route("/*", "Z")];
    let mut router = Router::new(routes, Mode::Production).unwrap();
    assert_eq!(resolve(&mut router, "/admin/users"), Some("X".to_string()));
    assert_eq!(resolve(&mut router, "/admin/other"), Some("Y".to_string()));
    assert_eq!(resolve(&mut router, "/elsewhere"), Some("Z".to_string()));
}

#[test]
fn resolution_does_not_depend_on_declaration_order() {
    let patterns = ["/*", "/a/*", "/a/b/*", "/a/b/c", "/a"];
    let paths = ["/", "/a", "/a/", "/a/b", "/a/b/", "/a/b/c", "/a/b/c/d", "/ab", "/x", ""];
    let orders: [[usize; 5]; 4] = [[0, 1, 2, 3, 4], [4, 3, 2, 1, 0], [2, 0, 4, 1, 3], [1, 3, 0, 4, 2]];
    let mut answers: Vec<Vec<Option<String>>> = Vec::new();
    for order in orders {
        let routes = order.iter().map(|&at| route(patterns[at], patterns[at])).collect();
        let mut router = Router::new(routes, Mode::Production).unwrap();
        answers.push(paths.iter().map(|path| resolve(&mut router, path)).collect());
    }
    let expected: Vec<Option<String>> = vec![
        Some("/*".to_string()),
        Some("/a".to_string()),
        Some("/a/*".to_string()),
        Some("/a/b/*".to_string()),
        Some("/a/b/*".to_string()),
        Some("/a/b/c".to_string()),
        Some("/a/b/*".to_string()),
        Some("/*".to_string()),
        Some("/*".to_string()),
        Some("/*".to_string()),
    ];
    for answer in answers {
        assert_eq!(answer, expected);
    }
}

#[test]
fn longer_prefix_is_preferred() {
    let routes = vec![route("/a/*", "short"), route("/a/b/*", "long")];
    let mut router = Router::new(routes, Mode::Production).unwrap();
    assert_eq!(resolve(&mut router, "/a/b/c"), Some("long".to_string()));
    assert_eq!(resolve(&mut router, "/a/c"), Some("short".to_string()));
    assert_eq!(resolve(&mut router, "/b"), None);
}

#[test]
fn resolution_is_repeatable() {
    let routes = vec![route("/admin/*", "A"), route("/*", "C")];
    let mut router = Router::new(routes, Mode::Production).unwrap();
    for path in ["/admin/x", "/y", "/admin", "/admin/x"] {
        let first = resolve(&mut router, path);
        let second = resolve(&mut router, path);
        let third = resolve(&mut router, path);
        assert_eq!(first, second);
        assert_eq!(second, third);
        assert!(first.is_some());
    }
    let mut bare = Router::new(vec![route("/only", "O")], Mode::Production).unwrap();
    assert_eq!(resolve(&mut bare, "/other"), None);
    assert_eq!(resolve(&mut bare, "/other"), None);
    assert_eq!(resolve(&mut bare, "/only"), Some("O".to_string()));
}

#[test]
fn prefix_respects_path_boundaries() {
    let mut router = Router::new(vec![route("/admin/*", "A")], Mode::Production).unwrap();
    assert_eq!(resolve(&mut router, "/admin"), Some("A".to_string()));
    assert_eq!(resolve(&mut router, "/admin/"), Some("A".to_string()));
    assert_eq!(resolve(&mut router, "/admin/x"), Some("A".to_string()));
    assert_eq!(resolve(&mut router, "/administration"), None);
    assert_eq!(resolve(&mut router, "/admi"), None);
    assert_eq!(resolve(&mut router, ""), None);
}

#[test]
fn boundary_is_counted_in_characters() {
    let mut router = Router::new(vec![route("/café/*", "A")], Mode::Production).unwrap();
    assert_eq!(resolve(&mut router, "/café"), Some("A".to_string()));
    assert_eq!(resolve(&mut router, "/café/menu"), Some("A".to_string()));
    assert_eq!(resolve(&mut router, "/cafés"), None);
    assert!(path_matches("/café/*", "/café/x"));
    assert!(!path_matches("/café/*", "/caféx"));
}

#[test]
fn duplicate_pattern_is_reported_with_its_text() {
    let routes = vec![route("/a/*", "1"), route("/b", "2"), route("/a/*", "3"), route("/b", "4")];
    match Router::new(routes, Mode::Development) {
        Err(HeisenbergError::Config { message, hint }) => {
            assert_eq!(message, "Duplicate route pattern: /a/*");
            assert!(hint.contains("Each route pattern must be unique"));
        }
        _ => panic!("expected a configuration error"),
    }
}

#[test]
fn duplicate_is_reported_before_an_empty_pattern() {
    let routes = vec![route("", "1"), route("/b", "2"), route("/b", "3")];
    match Router::new(routes, Mode::Development) {
        Err(HeisenbergError::Config { message, .. }) => {
            assert_eq!(message, "Duplicate route pattern: /b");
        }
        _ => panic!("expected a configuration error"),
    }
    let routes = vec![route("", "1"), route("", "2")];
    match Router::new(routes, Mode::Development) {
        Err(HeisenbergError::Config { message, .. }) => {
            assert_eq!(message, "Duplicate route pattern: ");
        }
        _ => panic!("expected a configuration error"),
    }
}

#[test]
fn empty_pattern_is_a_configuration_error() {
    let routes = vec![route("/a", "1"), route("", "2")];
    match Router::new(routes, Mode::Development) {
        Err(HeisenbergError::Config { message, hint }) => {
            assert_eq!(message, "Route pattern cannot be empty");
            assert!(hint.contains("Use '/*' to match all paths"));
        }
        _ => panic!("expected a configuration error"),
    }
    assert!(Router::compile_pattern("").is_err());
    assert!(Router::validate_routes(&vec![route("", "1")]).is_ok());
}

#[test]
fn router_without_routes_resolves_nothing() {
    let mut router = Router::new(Vec::new(), Mode::Development).unwrap();
    assert!(router.match_route("/").is_none());
    assert!(router.route_handler("/x").is_none());
    assert_eq!(router.mode(), Mode::Development);
}

#[test]
fn patterns_compile_to_their_kind() {
    match Router::compile_pattern("/*").unwrap() {
        PathMatcher::CatchAll => (),
        other => panic!("unexpected matcher {:?}", other),
    }
    match Router::compile_pattern("/api/*").unwrap() {
        PathMatcher::Prefix(prefix) => assert_eq!(prefix, chars("/api")),
        other => panic!("unexpected matcher {:?}", other),
    }
    match Router::compile_pattern("/api").unwrap() {
        PathMatcher::Exact(exact) => assert_eq!(exact, chars("/api")),
        other => panic!("unexpected matcher {:?}", other),
    }
    match Router::compile_pattern("*").unwrap() {
        PathMatcher::Exact(exact) => assert_eq!(exact, chars("*")),
        other => panic!("unexpected matcher {:?}", other),
    }
    match Router::compile_pattern("x/*").unwrap() {
        PathMatcher::Prefix(prefix) => assert_eq!(prefix, chars("x")),
        other => panic!("unexpected matcher {:?}", other),
    }
}

#[test]
fn rank_is_zero_ceiling_or_ceiling_less_prefix() {
    assert_eq!(Router::route_priority("/admin/users"), 0);
    assert_eq!(Router::route_priority("/*"), RANK_CEILING);
    assert_eq!(Router::route_priority("/admin/*"), RANK_CEILING - 6);
    assert_eq!(Router::route_priority("/a/*"), RANK_CEILING - 2);
    assert!(Router::route_priority("/admin/*") < Router::route_priority("/a/*"));
    assert_eq!(Router::compile_pattern("/admin/*").unwrap().rank(), RANK_CEILING - 6);
    assert_eq!(Router::compile_pattern("/x").unwrap().rank(), 0);
    assert_eq!(PathMatcher::CatchAll.rank(), RANK_CEILING);
}

#[test]
fn matcher_accepts_what_its_kind_says() {
    let exact = PathMatcher::Exact(chars("/a"));
    assert!(exact.matches(&chars("/a")));
    assert!(!exact.matches(&chars("/a/")));
    assert!(!exact.matches(&chars("/")));
    let prefix = PathMatcher::Prefix(chars("/a"));
    assert!(prefix.matches(&chars("/a")));
    assert!(prefix.matches(&chars("/a/b")));
    assert!(!prefix.matches(&chars("/ab")));
    assert!(!prefix.matches(&chars("/")));
    assert!(PathMatcher::CatchAll.matches(&chars("")));
    assert!(path_matches("", ""));
    assert!(!path_matches("", "/"));
    assert!(path_matches("/*", "anything"));
}

#[test]
fn handler_follows_the_mode() {
    let mut development = Router::new(vec![route("/*", "D")], Mode::Development).unwrap();
    match development.route_handler("/x") {
        Some(RouteHandler::Proxy(config)) => assert_eq!(config.embed_dir, "D"),
        _ => panic!("expected the proxy"),
    }
    let mut production = Router::new(vec![route("/*", "P")], Mode::Production).unwrap();
    match production.route_handler("/x") {
        Some(RouteHandler::StaticFiles(config)) => assert_eq!(config.embed_dir, "P"),
        _ => panic!("expected static files"),
    }
    assert_eq!(production.mode(), Mode::Production);
}

#[test]
fn stable_order_keeps_the_first_of_equal_rank() {
    let routes = vec![route("/ab/*", "first"), route("/cd/*", "second")];
    let mut router = Router::new(routes, Mode::Production).unwrap();
    assert_eq!(resolve(&mut router, "/ab/x"), Some("first".to_string()));
    assert_eq!(resolve(&mut router, "/cd/x"), Some("second".to_string()));
}
