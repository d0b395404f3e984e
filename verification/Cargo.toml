[package]
name = "codex_gauge"
version = "0.2.0"
edition = "2021"
publish = false

[dependencies]
chrono = "0.4"
semver = "1"
minisign-verify = "0.2"
serde = { version = "1", features = ["derive"] }
serde_json = "1"
reqwest = { version = "0.12", default-features = false, features = ["blocking", "json", "rustls-tls"] }
dirs = "5"
thiserror = "1"
zip = { version = "2", default-features = false, features = ["deflate"] }

[dev-dependencies]
serde_json = "1"
