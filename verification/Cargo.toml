[package]
name = "codex_potter"
version = "0.1.0"
edition = "2021"
publish = false

[dependencies]
anyhow = "1"
chrono = "0.4"
clap = "4"
crossterm = "0.28"
dirs = "6"
ratatui = "0.29"
serde = { version = "1", features = ["derive"] }
serde_json = "1"
supports-color = "3"
tokio = { version = "1", features = ["rt-multi-thread", "macros", "process", "io-util", "time"] }
unicode-width = "0.2"
