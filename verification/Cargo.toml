[package]
name = "eterpix_vrc_uploader"
version = "0.1.0"
edition = "2021"
publish = false

[dependencies]
regex = "1"
rosc = "*"
image = { version = "0.25", default-features = false, features = ["png", "jpeg"] }
serde = { version = "1", features = ["derive"] }
serde_json = "1"
anyhow = "1"
chrono = "0.4"
dirs = "*"
notify = "*"
reqwest = { version = "0.12", default-features = false, features = ["json", "multipart", "rustls-tls"] }
rusqlite = { version = "*", features = ["bundled"] }
tokio = { version = "1", features = ["time"] }
uuid = { version = "1", features = ["v4"] }
winreg = "*"
