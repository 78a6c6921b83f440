[package]
name = "heisenberg"
version = "0.1.0"
edition = "2021"
publish = false

[dependencies]
serde_json = "1"
thiserror = "1"
reqwest = { version = "0.12", default-features = false }
hyper = "1"
tokio = { version = "1", features = ["time", "fs", "rt"] }
tower = { version = "0.5", default-features = false }
tower-layer = "0.3"
actix-web = { version = "4", default-features = false }

[dev-dependencies]
tempfile = "3"
