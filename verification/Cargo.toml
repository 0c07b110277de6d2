[package]
name = "binocular"
version = "0.1.0"
edition = "2021"
publish = false

[dependencies]
anyhow = "1"
crossterm = { version = "0.27", features = ["event-stream"] }
dirs = "5"
ratatui = { version = "0.23", features = ["serde"] }
serde = { version = "1", features = ["derive"] }
serde_json = "1"
tokio = { version = "1", features = ["full"] }
tokio-stream = "0.1"
tui-input = "0.8"
