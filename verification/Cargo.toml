[package]
name = "monocle_sessions"
version = "0.1.0"
edition = "2021"
publish = false

[dependencies]
uuid = { version = "1", features = ["v4"] }
chrono = "0.4"
tokio = { version = "1", features = ["full"] }
nix = { version = "0.29", features = ["signal", "user"] }
serde = { version = "1", features = ["derive"] }
serde_json = "1"
tempfile = "3"
thiserror = "1"
async-trait = "0.1"
tracing = "0.1"
