[package]
name = "async_curl"
version = "0.1.0"
edition = "2021"
publish = false

[dependencies]
curl = "=0.4.51"
tokio = { version = "=1.54.1", features = ["rt", "sync"] }

[dev-dependencies]
tokio = { version = "=1.54.1", features = ["rt", "rt-multi-thread", "sync", "net", "io-util"] }
