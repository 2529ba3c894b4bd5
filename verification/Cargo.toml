[package]
name = "puppis_core"
version = "1.0.0"
edition = "2021"
publish = false

[dependencies]
serde = { version = "=1.0.229", features = ["derive"] }
serde_json = "=1.0.154"
dbus = "=0.9.12"
tauri = { version = "=2.12.5", default-features = false }
