[package]
name = "pine"
version = "0.1.0"
edition = "2021"
publish = false

[dependencies]
tokio = { version = "=1.53.2", features = ["fs", "io-util", "rt", "rt-multi-thread", "macros"] }
clap = { version = "=4.6.7", features = ["derive"] }
crossterm = { version = "=0.28.1", features = ["event-stream"] }
ratatui = "=0.29.0"
ratatui-image = "=8.1.1"
image = "=0.25.10"
mime = "=0.3.17"
tokio-stream = "=0.1.19"
tui-textarea = "=0.7.0"
