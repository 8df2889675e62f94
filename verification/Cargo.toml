[package]
name = "lcx"
version = "0.1.0"
edition = "2021"
publish = false

[dependencies]
html2text = "0.12"
owo-colors = "4"
comfy-table = "7"
ratatui = "0.29"
crossterm = "0.28"
serde = { version = "1", features = ["derive"] }
serde_json = "1"
anyhow = "1"
tokio = { version = "1", features = ["rt-multi-thread", "time", "macros"] }
