[package]
name = "heroi"
version = "0.1.0"
edition = "2021"
publish = false

[dependencies]
serde = { version = "=1.0.229", features = ["derive"] }
serde_json = "=1.0.154"
git2 = "=0.21.0"
libc = "=0.2.191"
tauri = { version = "2", default-features = false }
tauri-plugin-store = { version = "2", default-features = false }
