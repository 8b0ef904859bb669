[package]
name = "webdriver-cdp"
version = "0.1.0"
edition = "2021"
publish = false

[dependencies]
anyhow = "=1.0.104"
axum = "=0.8.9"
chrome-for-testing = "=0.6.1"
dashmap = "=6.2.1"
directories = "=6.0.0"
futures-util = "=0.3.34"
reqwest = { version = "=0.13.5", default-features = false, features = ["json", "native-tls", "charset", "http2", "system-proxy"] }
serde = { version = "=1.0.229", features = ["derive"] }
serde_json = "=1.0.154"
tokio = { version = "=1.54.1", features = ["full"] }
tokio-tungstenite = "=0.30.0"
tracing = "=0.1.44"
tracing-subscriber = { version = "=0.3.23", features = ["env-filter"] }
urlencoding = "=2.1.3"
uuid = { version = "=1.29.0", features = ["v4"] }
which = "=8.0.6"
zip-extensions = "=0.14.1"
