[package]
name = "dbh-insights-helper"
version = "0.3.0"
edition = "2021"
publish = false

[dependencies]
axum = { version = "=0.8.9", default-features = false, features = ["http1", "json", "tokio"] }
keyring = { version = "=3.6.3", default-features = false, features = ["apple-native", "linux-native", "windows-native"] }
quick-xml = "=0.37.5"
reqwest = { version = "=0.12.28", default-features = false, features = ["json", "rustls-tls"] }
serde = { version = "=1.0.229", features = ["derive"] }
serde_json = "=1.0.154"
tokio = { version = "=1.54.1", features = ["macros", "net", "rt-multi-thread", "sync", "time"] }
