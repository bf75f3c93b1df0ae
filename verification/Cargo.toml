[package]
name = "localstore"
version = "0.1.0"
edition = "2021"
publish = false

[dependencies]
rusqlite = { version = "=0.40.2", features = ["bundled"] }
rusqlite_migration = "=2.6.0"
serde = { version = "=1.0.229", features = ["derive"] }
serde_json = "=1.0.154"
thiserror = "=1.0.69"
log = "=0.4.34"
url = "=2.5.8"
anyhow = "1"
once_cell = "1"
webbrowser = "1"
font-kit = "*"
tauri = { version = "2", default-features = false }
