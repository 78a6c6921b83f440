//! Tests of the configuration with a project on disk.

use heisenberg::utils::package_json::{infer_from_build_dir, infer_working_dir};
use heisenberg::Heisenberg;
use std::path::PathBuf;
use tempfile::TempDir;

const MANIFEST: &str = r#"{
  "name": "test-spa",
  "version": "1.0.0",
  "scripts": {
    "dev": "vite",
    "build": "vite build"
  }
}"#;

fn dist_path(temp_dir: &TempDir) -> PathBuf {
    temp_dir.path().join("dist")
}

#[test]
fn test_basic_configuration() {
    let fixture = TempDir::new().expect("Failed to create test fixture");
    let dist = dist_path(&fixture);

    let config = Heisenberg::new().spa(dist.to_str().unwrap()).build();

    assert_eq!(config.routes().len(), 1);
    assert_eq!(config.routes()[0].pattern, "/*");
    assert_eq!(PathBuf::from(&config.routes()[0].embed_dir), dist);
    assert_eq!(config.routes()[0].dev_proxy_url, "http://localhost:5173");
}

#[test]
fn integration_basic_test_multiple_spa_routes() {
    let fixture1 = TempDir::new().expect("Failed to create test fixture 1");
    let fixture2 = TempDir::new().expect("Failed to create test fixture 2");
    let dist1 = dist_path(&fixture1);
    let dist2 = dist_path(&fixture2);

    let config = Heisenberg::new()
        .spa(dist1.to_str().unwrap())
        .spa(dist2.to_str().unwrap())
        .build();

    assert_eq!(config.routes().len(), 2);
    assert_eq!(PathBuf::from(&config.routes()[0].embed_dir), dist1);
    assert_eq!(PathBuf::from(&config.routes()[1].embed_dir), dist2);
}

#[test]
fn route_takes_what_was_inferred_from_the_manifest() {
    let fixture = TempDir::new().expect("Failed to create test fixture");
    let dist = dist_path(&fixture);
    let project = infer_working_dir(dist.to_str().unwrap());
    assert_eq!(PathBuf::from(&project), fixture.path());

    let manifest_path = fixture.path().join("package.json");
    let inferred = infer_from_build_dir(&project, manifest_path.to_str().unwrap(), MANIFEST).unwrap();
    let config = Heisenberg::new().spa_with(dist.to_str().unwrap(), inferred).build();

    assert_eq!(config.routes()[0].pattern, "/*");
    assert_eq!(config.routes()[0].dev_proxy_url, "http://localhost:5173");
    assert_eq!(config.routes()[0].dev_command, vec!["vite"]);
    assert_eq!(PathBuf::from(&config.routes()[0].working_dir), fixture.path());
    assert_eq!(config.routes()[0].fallback_file, Some("index.html".to_string()));
}
