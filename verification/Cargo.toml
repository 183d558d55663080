[package]
name = "wellwon-desktop"
version = "0.1.0"
edition = "2021"
publish = false

[dependencies]
url = "2.5.8"
tauri = { version = "=2.12.5", default-features = false, features = ["wry"] }
tokio = { version = "1.54.1", features = ["time"] }
objc = "0.2.7"
