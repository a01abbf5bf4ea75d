[package]
name = "luwiki_mcp"
version = "0.1.0"
edition = "2021"
publish = false

[dependencies]
pulldown-cmark = { version = "=0.13.6", default-features = false }
serde = { version = "=1.0.229", features = ["derive"] }
serde_json = "=1.0.154"
chrono = "=0.4.45"
tokio = { version = "=1.54.1", features = ["sync", "rt", "time", "macros"] }
futures = "=0.3.34"
rmcp = { version = "=3.8.0", features = ["server", "transport-streamable-http-server"] }
