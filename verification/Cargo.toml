[package]
name = "ferri_core"
version = "0.1.0"
edition = "2021"
publish = false

[dependencies]
ignore = "*"
parking_lot = "*"
serde = { version = "*", features = ["derive"] }
tokio = { version = "*", features = ["rt-multi-thread", "sync", "fs", "macros"] }
tokio-stream = "*"
toml = "*"
