[package]
name = "remycord"
version = "0.1.0"
edition = "2021"
publish = false

[dependencies]
image = { version = "0.25", default-features = false, features = ["png", "jpeg", "gif", "webp"] }
ratatui-image = { version = "8", default-features = false }
ratatui = "0.29"
crossterm = "0.28"
anyhow = "1"
dirs = "5"
serde = { version = "1", features = ["derive"] }
serde_json = "1"
serde_yaml = "0.9"
toml = "0.8"
tokio = { version = "1", features = ["rt-multi-thread", "macros", "sync", "time", "fs", "net"] }
reqwest = { version = "0.11", default-features = false, features = ["rustls-tls", "json"] }
futures-util = "0.3"
tokio-tungstenite = { version = "0.21", features = ["rustls-tls-webpki-roots"] }
serenity = { version = "0.12", default-features = false, features = ["builder", "chrono", "client", "gateway", "http", "model", "utils", "rustls_backend"] }
