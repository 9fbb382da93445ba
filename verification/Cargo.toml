[package]
name = "dockyard"
version = "0.1.0"
edition = "2021"
publish = false

[dependencies]
ansi-to-tui = "8"
anyhow = "1"
base64 = "0.22"
bollard = { version = "0.20", features = ["chrono"] }
chrono = "0.4"
clap = { version = "4", features = ["derive"] }
crossterm = { version = "0.29", features = ["event-stream"] }
futures = "0.3"
libc = "0.2"
ratatui = "0.30"
serde_json = "1"
tokio = { version = "1", features = ["full"] }
unicode-width = "0.2"
