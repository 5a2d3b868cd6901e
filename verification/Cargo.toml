[package]
name = "forward_proxy"
version = "0.1.0"
edition = "2021"
publish = false

[dependencies]
chrono = "0.4"
clap = "2"
env_logger = "0.9"
futures-util = "0.3"
http = "0.2"
hyper = { version = "0.14", features = ["full"] }
log = "0.4"
serde_yaml = "0.8"
tokio = { version = "1", features = ["full"] }
