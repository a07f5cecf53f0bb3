[package]
name = "jsentinel"
version = "0.1.0"
edition = "2021"
publish = false

[dependencies]
rusqlite = { version = "0.41.1", features = ["bundled"] }
serde = { version = "1.0.229", features = ["derive"] }
serde_json = "1.0.154"
tauri = { version = "2.12.5", default-features = false }
