[package]
name = "dictation_hotkeys"
version = "0.1.0"
edition = "2021"
publish = false

[dependencies]
global-hotkey = "0.7"
tauri-utils = "2"
serde = { version = "1", features = ["derive"] }
serde_json = "1"
dirs = "6"
env_logger = "0.11"
log = "0.4"
