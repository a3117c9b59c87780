[package]
name = "mcp_notifications"
version = "1.2.0"
edition = "2021"
publish = false

[dependencies]
url = "2"
uuid = { version = "1", features = ["v4"] }
chrono = "0.4"
serde = { version = "1", features = ["derive"] }
serde_json = "1"
reqwest = { version = "0.12", default-features = false, features = ["json", "rustls-tls"] }
tokio = { version = "1", features = ["full"] }
rmcp = { version = "3.1.2", features = ["server", "macros", "transport-io"] }
anyhow = "1"
tracing-subscriber = { version = "0.3", features = ["env-filter"] }
