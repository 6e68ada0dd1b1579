[package]
name = "https_proxy"
version = "0.1.0"
edition = "2021"
publish = false

[dependencies]
hyper = { version = "0.14", features = ["full"] }
tokio = { version = "1", features = ["full"] }
rustls = "0.19"
tokio-rustls = "0.22"
hyper-rustls = "0.22"
futures-util = "0.3"
async-stream = "0.3"
serde = { version = "1", features = ["derive"] }
toml = "0.5"
log = "0.4"
fern = { version = "0.6", features = ["colored"] }
chrono = "0.4"
