[package]
name = "whatsapp_unofficial"
version = "0.1.0"
edition = "2021"
publish = false

[dependencies]
url = "2"
serde = { version = "1", features = ["derive"] }
log = "0.4"
keyring-core = "1"
tauri = { version = "2", default-features = false }
