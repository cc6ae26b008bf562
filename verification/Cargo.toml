[package]
name = "timr"
version = "0.1.0"
edition = "2021"
publish = false

[dependencies]
clap = { version = "4", features = ["derive"] }
color-eyre = "0.6"
ratatui = "0.29"
tracing = "0.1"
tokio = { version = "1", features = ["rt", "macros", "time", "sync"] }
