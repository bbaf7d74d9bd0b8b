[package]
name = "chronos"
version = "0.1.0"
edition = "2021"
publish = false

[dependencies]
aes-gcm = "0.10"
arrow-array = { version = "=60.1.0", default-features = false }
arrow-schema = { version = "=60.1.0", default-features = false }
candle-core = "=0.11.1"
candle-nn = "=0.11.1"
candle-transformers = "=0.11.1"
chrono = "=0.4.45"
dirs = "=5.0.1"
futures = "=0.3.34"
hf-hub = { version = "=0.5.0", default-features = false, features = ["ureq"] }
reqwest = { version = "=0.12.28", default-features = false, features = ["json", "rustls-tls"] }
serde = { version = "=1.0.229", features = ["derive"] }
serde_json = "=1.0.154"
thiserror = "=1.0.69"
tokenizers = { version = "=0.23.2", default-features = false }
tokio = { version = "=1.54.1", features = ["sync", "rt", "macros"] }
tracing = "=0.1.44"
tracing-appender = "=0.2.5"
tracing-subscriber = { version = "=0.3.23", features = ["env-filter"] }
uuid = { version = "=1.29.0", features = ["v4"] }
zeroize = "=1.9.1"
