[package]
name = "iclass_tui"
version = "0.1.0"
edition = "2021"
publish = false

[dependencies]
anyhow = "=1.0.104"
base64 = "=0.22.1"
color-eyre = "0.6"
crossterm = "=0.28.1"
ratatui = "=0.29.0"
reqwest = { version = "=0.12.28", default-features = false, features = ["json", "multipart"] }
serde = { version = "=1.0.229", features = ["derive"] }
serde_json = "=1.0.154"
sqlx = { version = "=0.8.6", default-features = false, features = ["sqlite", "runtime-tokio"] }
tokio = { version = "=1.54.1", features = ["macros", "rt-multi-thread", "fs"] }
tracing-subscriber = "0.3"
