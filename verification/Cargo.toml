[package]
name = "mcp_server_states"
version = "1.0.0"
edition = "2021"
publish = false

[dependencies]
apollo-compiler = "=1.33.1"
apollo-federation = "=2.19.0"
axum = { version = "=0.8.9", default-features = false, features = ["http1", "tokio"] }
futures = "=0.3.34"
opentelemetry = { version = "=0.33.1", default-features = false, features = ["metrics"] }
reqwest = { version = "=0.12.28", default-features = false }
rmcp = { version = "0.16", features = ["server"] }
serde_json = "=1.0.154"
tokio = { version = "=1.54.1", features = ["macros", "rt", "signal", "sync"] }
tokio-util = "=0.7.20"
tracing = "0.1"
url = "=2.5.8"
