[package]
name = "trending_tui"
version = "0.1.0"
edition = "2021"
publish = false

[dependencies]
chrono = "0.4"
ratatui = "0.30"
tokio = { version = "1", features = ["rt"] }
unicode-width = "0.2"
