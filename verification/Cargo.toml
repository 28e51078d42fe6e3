[package]
name = "batch_publisher"
version = "0.1.0"
edition = "2021"
publish = false

[dependencies]
pulsar = "=4.1.3"
tokio = { version = "*", features = ["rt-multi-thread", "macros", "time"] }
serde = { version = "*", features = ["derive"] }
serde_json = "*"
log = "*"
env_logger = "*"
