[package]
name = "download_jobs"
version = "0.1.0"
edition = "2021"
publish = false

[dependencies]
base64 = "0.21"
chacha20poly1305 = "0.10"
chrono = "0.4"
once_cell = "1"
rand = "0.8"
regex = "1"
reqwest = { version = "0.12", features = ["json"] }
serde = { version = "1", features = ["derive"] }
serde_json = "1"
tiny_http = "0.12"
tokio = { version = "1", features = ["fs", "rt"] }
tokio-stream = { version = "0.1", features = ["fs"] }
url = "2"
uuid = { version = "1", features = ["v4"] }
