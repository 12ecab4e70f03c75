[package]
name = "bezy"
version = "0.1.0"
edition = "2021"
publish = false

[dependencies]
rand = "=0.8.8"
harfrust = "=0.1.2"
crossterm = "=0.28.1"
ratatui = "=0.28.1"
tokio = { version = "=1.54.1", features = ["rt-multi-thread", "sync", "time", "macros"] }
anyhow = "=1.0.104"
serde = { version = "=1.0.229", features = ["derive"] }
