//! Tests of what is inferred from a project manifest.

use heisenberg::utils::package_json::{
    default_port_of_tool, extract_port_from_script, infer_dev_command, infer_dev_port,
    infer_from_build_dir, infer_working_dir, package_json_from, parse_package_json, port_text,
    working_dir_from, InferredConfig, PackageJson,
};
use heisenberg::utils::json::JsonValue;
use heisenberg::HeisenbergError;

fn manifest(scripts: &[(&str, &str)]) -> PackageJson {
    PackageJson {
        scripts: scripts
            .iter()
            .map(|(name, script)| (name.to_string(), script.to_string()))
            .collect(),
        name: None,
        version: None,
    }
}

#[test]
fn test_infer_from_nonexistent_dir() {
    // A directory that does not exist has no manifest to read: there is no
    // text, and no text is not JSON.
    let result = infer_from_build_dir("/nonexistent/path", "/nonexistent/path/package.json", "");
    assert!(result.is_err());
}

#[test]
fn test_package_json_creation() {
    let scripts = vec![
        ("dev".to_string(), "vite".to_string()),
        ("build".to_string(), "vite build".to_string()),
    ];

    let package_json = PackageJson {
        scripts,
        name: Some("test-app".to_string()),
        version: Some("1.0.0".to_string()),
    };

    assert_eq!(package_json.name, Some("test-app".to_string()));
    assert_eq!(package_json.version, Some("1.0.0".to_string()));
    assert!(package_json.script("dev").is_some());
}

#[test]
fn test_infer_with_temp_structure() {
    let package_json_content = r#"{
        "name": "test-project",
        "scripts": {
            "dev": "vite --port 3000"
        }
    }"#;

    let result = infer_from_build_dir("/tmp/project", "/tmp/project/package.json", package_json_content);
    assert!(result.is_ok());

    let config = result.unwrap();
    assert_eq!(config.working_dir, "/tmp/project");
    assert_eq!(config.package_json_path, "/tmp/project/package.json");
    assert_eq!(config.dev_port, 3000);
    assert_eq!(config.dev_url, "http://localhost:3000");
    assert_eq!(config.dev_command, vec!["vite", "--port", "3000"]);
}

#[test]
fn manifest_is_read_from_json() {
    let content = r#"{"name": "app", "version": "1.2.3", "private": true,
        "scripts": {"dev": "vite", "build": "vite build", "count": 3}}"#;
    let manifest = parse_package_json(content).unwrap();
    assert_eq!(manifest.name, Some("app".to_string()));
    assert_eq!(manifest.version, Some("1.2.3".to_string()));
    assert_eq!(manifest.scripts.len(), 2);
    assert_eq!(manifest.script("dev"), Some(&"vite".to_string()));
    assert_eq!(manifest.script("build"), Some(&"vite build".to_string()));
    assert_eq!(manifest.script("count"), None);
}

#[test]
fn manifest_without_scripts_is_empty() {
    let manifest = parse_package_json(r#"{"name": 7, "scripts": "none"}"#).unwrap();
    assert_eq!(manifest.name, None);
    assert_eq!(manifest.version, None);
    assert!(manifest.scripts.is_empty());

    let manifest = parse_package_json("[1, 2]").unwrap();
    assert!(manifest.scripts.is_empty());
}

#[test]
fn text_that_is_not_json_is_a_parse_error() {
    match parse_package_json("{ not json") {
        Err(HeisenbergError::PackageJsonParse(_)) => (),
        _ => panic!("expected a parse error"),
    }
    match infer_from_build_dir("/p", "/p/package.json", "{") {
        Err(HeisenbergError::PackageJsonParse(_)) => (),
        _ => panic!("expected a parse error"),
    }
}

#[test]
fn manifest_is_taken_from_a_document() {
    let document = JsonValue::Object(vec![
        ("name".to_string(), JsonValue::Text("x".to_string())),
        (
            "scripts".to_string(),
            JsonValue::Object(vec![
                ("a".to_string(), JsonValue::Text("one".to_string())),
                ("b".to_string(), JsonValue::Null),
                ("c".to_string(), JsonValue::Text("three".to_string())),
            ]),
        ),
        ("version".to_string(), JsonValue::Bool(true)),
    ]);
    let manifest = package_json_from(&document);
    assert_eq!(manifest.name, Some("x".to_string()));
    assert_eq!(manifest.version, None);
    assert_eq!(
        manifest.scripts,
        vec![
            ("a".to_string(), "one".to_string()),
            ("c".to_string(), "three".to_string())
        ]
    );
}

#[test]
fn dev_command_prefers_dev_then_start_then_serve() {
    assert_eq!(
        infer_dev_command(&manifest(&[("serve", "s"), ("start", "node  server.js"), ("dev", "vite --host")])),
        vec!["vite", "--host"]
    );
    assert_eq!(
        infer_dev_command(&manifest(&[("serve", "s"), ("start", "node  server.js")])),
        vec!["node", "server.js"]
    );
    assert_eq!(infer_dev_command(&manifest(&[("serve", "http-server .")])), vec!["http-server", "."]);
    assert_eq!(
        infer_dev_command(&manifest(&[("build", "tsc"), ("dev:web", "vite"), ("dev:api", "node api")])),
        vec!["vite"]
    );
    assert_eq!(infer_dev_command(&manifest(&[("build", "tsc")])), vec!["npm", "run", "dev"]);
    assert_eq!(infer_dev_command(&manifest(&[])), vec!["npm", "run", "dev"]);
}

#[test]
fn port_is_read_after_its_flag() {
    assert_eq!(extract_port_from_script("vite --port 3000"), Some(3000));
    assert_eq!(extract_port_from_script("vite --port=4000 --host"), Some(4000));
    assert_eq!(extract_port_from_script("serve -p 8081"), Some(8081));
    assert_eq!(extract_port_from_script("serve -p=8082"), Some(8082));
    assert_eq!(extract_port_from_script("PORT=9000 node server.js"), Some(9000));
    assert_eq!(extract_port_from_script("vite"), None);
    assert_eq!(extract_port_from_script("vite --port"), None);
    assert_eq!(extract_port_from_script("vite --port abc"), None);
    assert_eq!(extract_port_from_script("vite --port 70000"), None);
    assert_eq!(extract_port_from_script("vite --port abc -p 81"), Some(81));
    assert_eq!(extract_port_from_script("vite --port   12"), Some(12));
}

#[test]
fn tool_decides_the_port_where_none_is_named() {
    assert_eq!(default_port_of_tool("vite build"), Some(5173));
    assert_eq!(default_port_of_tool("webpack serve"), Some(3000));
    assert_eq!(default_port_of_tool("react-scripts start"), Some(3000));
    assert_eq!(default_port_of_tool("next dev"), Some(3000));
    assert_eq!(default_port_of_tool("node server.js"), None);

    assert_eq!(infer_dev_port(&manifest(&[("build", "tsc"), ("dev", "next dev")])), 3000);
    assert_eq!(infer_dev_port(&manifest(&[("dev", "next dev"), ("x", "run -p 81")])), 81);
    assert_eq!(infer_dev_port(&manifest(&[("dev", "vite")])), 5173);
    assert_eq!(infer_dev_port(&manifest(&[("dev", "node index.js")])), 5173);
    assert_eq!(infer_dev_port(&manifest(&[])), 5173);
}

#[test]
fn port_is_written_in_decimal() {
    assert_eq!(port_text(0), "0");
    assert_eq!(port_text(7), "7");
    assert_eq!(port_text(80), "80");
    assert_eq!(port_text(5173), "5173");
    assert_eq!(port_text(65535), "65535");
}

#[test]
fn defaults_hold_where_nothing_is_read() {
    let config = InferredConfig::default_for_dir("./web/dist");
    assert_eq!(std::path::PathBuf::from(&config.working_dir), std::path::PathBuf::from("./web"));
    assert_eq!(config.package_json_path, "");
    assert_eq!(config.dev_command, vec!["npm", "run", "dev"]);
    assert_eq!(config.dev_port, 5173);
    assert_eq!(config.dev_url, "http://localhost:5173");

    let config = InferredConfig::default_with_parent("dist", None);
    assert_eq!(config.working_dir, "dist");
    let config = InferredConfig::default_with_parent("dist", Some("up".to_string()));
    assert_eq!(config.working_dir, "up");
}

#[test]
fn project_directory_is_above_a_build_directory() {
    for name in ["dist", "build", "out", "public", "www"] {
        let dir = working_dir_from("/p/x", Some(name.to_string()), Some("/p".to_string()));
        assert_eq!(dir, "/p");
    }
    assert_eq!(working_dir_from("/p/src", Some("src".to_string()), Some("/p".to_string())), "/p/src");
    assert_eq!(working_dir_from("/", None, None), "/");
    assert_eq!(working_dir_from("dist", Some("dist".to_string()), None), "dist");

    assert_eq!(
        std::path::PathBuf::from(infer_working_dir("/home/me/app/dist")),
        std::path::PathBuf::from("/home/me/app")
    );
    assert_eq!(
        std::path::PathBuf::from(infer_working_dir("/home/me/app/site")),
        std::path::PathBuf::from("/home/me/app/site")
    );
}
