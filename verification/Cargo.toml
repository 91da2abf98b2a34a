[package]
name = "mcp-server-gpt-chat"
version = "0.1.0"
edition = "2021"
publish = false

[dependencies]
anyhow = "=1.0.104"
reqwest = { version = "=0.12.28", default-features = false, features = ["json", "rustls-tls"] }
rmcp = { version = "=0.8.5", features = ["server", "macros", "transport-io"] }
schemars = "=1.2.3"
serde = { version = "=1.0.229", features = ["derive"] }
serde_json = { version = "=1.0.154", features = ["float_roundtrip"] }
tokio = { version = "=1.54.1", features = ["macros", "rt-multi-thread", "io-std"] }
toml = "=0.8.23"
