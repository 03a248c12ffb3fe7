[package]
name = "claudio"
version = "0.1.0"
edition = "2021"
publish = false

[dependencies]
base64 = "0.22"
chrono = "0.4"
hmac = "0.12"
sha1 = "0.10"
serde = { version = "1", features = ["derive"] }
serde_json = "1"
dirs-next = "2"
reqwest = { version = "0.12", default-features = false, features = ["json", "rustls-tls"] }
rodio = "0.20"
tokio = { version = "1", features = ["time"] }
