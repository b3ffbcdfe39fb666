[package]
name = "voiceforge"
version = "0.1.0"
edition = "2021"
publish = false

[dependencies]
anyhow = "=1.0.104"
directories = "=5.0.1"
futures-util = { version = "=0.3.34", features = ["sink"] }
global-hotkey = "=0.6.4"
image = { version = "=0.25.10", default-features = false, features = ["png"] }
keyring = { version = "=3.6.3", features = ["windows-native", "apple-native", "linux-native"] }
reqwest = { version = "=0.12.28", default-features = false, features = ["rustls-tls", "multipart", "stream"] }
serde = { version = "=1.0.229", features = ["derive"] }
serde_json = "=1.0.154"
tokio = { version = "=1.54.1", features = ["rt-multi-thread", "sync", "macros"] }
tokio-tungstenite = { version = "=0.24.0", features = ["rustls-tls-webpki-roots"] }
toml = "=0.8.23"
tracing = "=0.1.44"
tracing-appender = "=0.2.5"
tracing-subscriber = { version = "=0.3.23", features = ["env-filter"] }
