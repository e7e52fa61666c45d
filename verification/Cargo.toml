[package]
name = "enterprise_code_memory"
version = "0.1.0"
edition = "2021"
publish = false

[dependencies]
anyhow = "=1.0.104"
axum = "=0.8.9"
chrono = "=0.4.45"
dashmap = "=6.2.1"
dotenvy = "=0.15.7"
falkordb = { version = "=0.11.0", features = ["tokio"] }
governor = "=0.10.4"
jsonwebtoken = "=9.3.1"
octocrab = "=0.44.1"
reqwest = { version = "=0.13.5", default-features = false, features = ["json"] }
rmcp = { version = "=3.8.0", features = ["server", "macros", "transport-streamable-http-server"] }
schemars = "=1.2.3"
serde = { version = "=1.0.229", features = ["derive"] }
serde_json = "=1.0.154"
tokio = { version = "=1.54.1", features = ["full"] }
toml = "=1.1.8"
tracing = "=0.1.44"
tracing-subscriber = { version = "=0.3.23", features = ["env-filter"] }
