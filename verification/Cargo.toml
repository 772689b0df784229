[package]
name = "tauri_plugin_tts"
version = "0.1.0"
edition = "2021"
publish = false

[dependencies]
serde = { version = "1", features = ["derive"] }
thiserror = "2"
tts = "0.26"

[dev-dependencies]
serde_json = "1"
