[package]
name = "app_shell"
version = "0.1.0"
edition = "2021"
publish = false

[dependencies]
tauri = { version = "2", default-features = false }
tauri-plugin-updater = { version = "2", default-features = false }
tokio = { version = "1", default-features = false, features = ["time"] }
