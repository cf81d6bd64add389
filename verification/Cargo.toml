[package]
name = "taurigon"
version = "0.1.0"
edition = "2021"
publish = false

[dependencies]
dirs = "=5.0.1"
serde = { version = "=1.0.229", features = ["derive"] }
log = "=0.4.35"
env_logger = "=0.11.11"
tokio = { version = "=1.54.1", features = ["process", "sync", "rt-multi-thread", "macros"] }
rusqlite = { version = "=0.31.0", features = ["bundled"] }
portable-pty = "=0.8.1"
