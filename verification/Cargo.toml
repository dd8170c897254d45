[package]
name = "radio"
version = "0.1.0"
edition = "2021"
publish = false

[dependencies]
anyhow = "1"
dotenv = "0.15"
env_logger = "0.10"
gstreamer = "0.20"
log = "0.4"
reqwest = { version = "0.11", features = ["json", "blocking"] }
rusqlite = { version = "0.28", features = ["bundled"] }
serde = { version = "1", features = ["derive"] }
serde_json = "1"
tokio = { version = "1", features = ["full"] }
trust-dns-resolver = "0.22"
