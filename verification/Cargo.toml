[package]
name = "remote_feedback"
version = "0.1.0"
edition = "2021"
publish = false

[dependencies]
log = "0.4"
reqwest = { version = "=0.12.28", default-features = false }
serde = { version = "1", features = ["derive"] }
serde_json = "1"
takecell = "=0.1.1"
tauri = { version = "2", default-features = false }
teloxide = { version = "0.17", default-features = false }
tokio = { version = "1", features = ["time", "rt"] }
