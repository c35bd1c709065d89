[package]
name = "tauri_femtovg"
version = "0.1.0"
edition = "2021"
publish = false

[dependencies]
serde = { version = "1", features = ["derive"] }
femtovg = { version = "0.28", default-features = false }
gtk = "0.18"
async-channel = "2"
libloading = "0.8"
