[package]
name = "rem_core"
version = "0.1.0"
edition = "2021"
publish = false

[dependencies]
crossterm = "0.28"
ratatui = "0.29"
thiserror = "1"
color-eyre = "0.6"
tokio = { version = "1", features = ["rt-multi-thread", "macros", "sync", "time"] }
serde = { version = "1", features = ["derive"] }
strum = { version = "0.26", features = ["derive"] }
clap = { version = "4", features = ["derive"] }
tracing = "0.1"
objc = "0.2"
block = "0.1"
