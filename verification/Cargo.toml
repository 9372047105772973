[package]
name = "tauri-plugin-notification"
version = "0.1.0"
edition = "2021"
publish = false

[dependencies]
aes-gcm = "0.10"
sha2 = "0.10"
rand = "0.8"
uuid = { version = "1", features = ["v4"] }
windows-version = "0.1"
serde = { version = "1", features = ["derive"] }
serde_json = "1"
serde_repr = "0.1"
time = { version = "0.3", features = ["serde", "formatting", "parsing"] }
url = { version = "2", features = ["serde"] }
thiserror = "2"
anyhow = "1"
dirs = "5"
log = "0.4"
winreg = "0.52"
