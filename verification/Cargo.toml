[package]
name = "clash_lib"
version = "0.1.0"
edition = "2021"
publish = false

[dependencies]
anyhow = "1"
async-trait = "0.1"
erased-serde = "0.4"
futures = "0.3"
rustls = { version = "0.23", default-features = false, features = ["std", "ring"] }
tokio = { version = "1", features = ["net", "rt", "sync", "time", "io-util"] }
tokio-util = "0.7"
tracing = "0.1"
uuid = "1"
wind-core = "0.1.1"
wind-tuic = "0.1.1"
