[package]
name = "codex_core"
version = "0.1.0"
edition = "2021"
publish = false

[dependencies]
futures = "*"
quick-xml = { version = "*", features = ["serialize"] }
serde = { version = "*", features = ["derive"] }
serde_json = "*"
tokio = { version = "*", features = ["sync"] }
