[package]
name = "worker_manifest"
version = "0.1.0"
edition = "2021"
publish = false

[dependencies]
config = { version = "0.10", default-features = false, features = ["toml"] }
failure = "0.1"
log = "0.4"
serde = { version = "1", features = ["derive"] }
serde_with = { version = "1", default-features = false }
toml = "0.5"
