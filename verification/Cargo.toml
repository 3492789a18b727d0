[package]
name = "ipverse_mcp"
version = "0.1.0"
edition = "2021"
publish = false

[dependencies]
axum = "*"
dirs = "*"
git2 = "*"
ipnet = "*"
rmcp = { version = "*", features = ["server", "macros"] }
serde = { version = "*", features = ["derive"] }
serde_json = "*"
thiserror = "*"
tokio = { version = "*", features = ["fs", "sync", "rt", "macros"] }
tracing = "*"
