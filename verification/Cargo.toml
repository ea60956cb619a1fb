[package]
name = "iceicebabyv2"
version = "0.1.0"
edition = "2021"
publish = false

[dependencies]
chorus = "*"
tokio = { version = "1", features = ["full"] }
log = "0.4"
env_logger = "0.11"
pubserve = "*"
async-trait = "0.1"
