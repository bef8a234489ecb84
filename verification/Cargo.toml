[package]
name = "superwhisper"
version = "0.1.0"
edition = "2021"
publish = false

[dependencies]
serde = { version = "1", features = ["derive"] }
serde_json = "1"
log = "0.4"
dirs = "*"
tokio = { version = "1", features = ["sync", "time"] }
tauri = { version = "2", default-features = false }
tauri-plugin-global-shortcut = "2"
