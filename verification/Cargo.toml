[package]
name = "google_slides1"
version = "0.1.0"
edition = "2021"
publish = false

[dependencies]
google-apis-common = { version = "=8.0.0", default-features = false }
hyper = "=1.12.0"
mime = "=0.3.17"
serde = { version = "=1.0.229", features = ["derive"] }
serde_json = "=1.0.154"
serde_with = "=3.24.0"
tokio = { version = "=1.54.1", features = ["time"] }
url = "=2.5.8"
