[package]
name = "game_sync"
version = "0.1.0"
edition = "2021"
publish = false

[dependencies]
base64 = "=0.22.1"
serde = { version = "1", features = ["derive"] }
serde_json = "1"
tauri = { version = "=2.12.5", default-features = false, features = ["wry"] }
tokio = { version = "=1.54.1", features = ["rt"] }
