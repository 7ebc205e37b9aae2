[package]
name = "drop-core"
version = "0.1.0"
edition = "2021"
publish = false

[dependencies]
anyhow = "=1.0.104"
dirs = "=7.0.0"
open = "=5.4.5"
serde = { version = "=1.0.229", features = ["derive"] }
tauri = { version = "2", default-features = false }
tokio = { version = "=1.54.1", features = ["rt", "rt-multi-thread", "macros", "time", "sync", "signal"] }
whoami = "=1.6.1"
