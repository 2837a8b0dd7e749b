[package]
name = "quickdoctor"
version = "0.1.0"
edition = "2021"
publish = false

[dependencies]
base64 = "=0.22.1"
chrono = "=0.4.45"
rand = "=0.8.8"
regex = "=1.13.1"
reqwest = { version = "=0.12.28", features = ["json", "cookies", "gzip", "brotli"] }
scraper = "=0.29.0"
serde = { version = "=1.0.229", features = ["derive"] }
serde_json = "=1.0.154"
tokio = { version = "=1.54.1", features = ["full"] }
tokio-util = "=0.7.20"
url = "=2.5.8"
urlencoding = "=2.1.3"
