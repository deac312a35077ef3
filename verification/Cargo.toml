[package]
name = "local_async_utils"
version = "0.1.0"
edition = "2021"
publish = false

[dependencies]
futures = "0.3"
log = "0.4"
tokio = { version = "1", features = ["io-util"] }

[dev-dependencies]
tokio-test = "0.4"
