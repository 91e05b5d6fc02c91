[package]
name = "mini_redis"
version = "0.1.0"
edition = "2021"
publish = false

[dependencies]
bytes = "1"
tokio = { version = "1", features = ["sync", "rt", "rt-multi-thread", "macros", "net", "signal"] }
pin-project = "1"
reqwest = { version = "0.11", default-features = false, features = ["rustls-tls"] }
clap = { version = "3", features = ["derive"] }
tracing-subscriber = "0.3"
