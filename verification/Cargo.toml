[package]
name = "phishvault"
version = "0.1.0"
edition = "2021"
publish = false

[dependencies]
anyhow = "*"
crossterm = { version = "*", features = ["event-stream"] }
futures = "*"
ratatui = "*"
serde_json = "*"
tokio = { version = "*", features = ["macros", "rt-multi-thread", "process", "io-util", "sync", "time"] }
