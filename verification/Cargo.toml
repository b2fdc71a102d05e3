[package]
name = "warpgate-protocol-remoterun"
version = "0.1.0"
edition = "2021"
publish = false

[dependencies]
anyhow = "=1.0.104"
futures = "=0.3.34"
reqwest = { version = "=0.12.28", default-features = false, features = ["rustls-tls", "http2", "charset"] }
russh = { version = "=0.65.0", default-features = false, features = ["ring"] }
serde_json = "=1.0.154"
tokio = { version = "=1.54.1", features = ["io-util", "macros", "process", "rt", "sync"] }
tracing = "=0.1.44"
uuid = "=1.29.0"
