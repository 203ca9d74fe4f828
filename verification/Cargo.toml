[package]
name = "imgur_a"
version = "0.1.0"
edition = "2021"
publish = false

[dependencies]
async-channel = "1.8"
atomic-counter = "1.0"
clap = { version = "4", features = ["derive"] }
lazy_static = "1.4"
regex = "1.8"
reqwest = { version = "0.11", default-features = false, features = ["gzip", "rustls-tls"] }
serde = { version = "1", features = ["derive"] }
serde_json = "1"
tokio = { version = "1", features = ["full"] }
