[package]
name = "electrs"
version = "0.10.0"
edition = "2021"
publish = false

[dependencies]
bitcoin = { version = "0.32", features = ["serde"] }
bitcoincore-rpc = "0.19"
configure_me = "0.4"
dirs-next = "2"
env_logger = "0.10"
serde = { version = "1", features = ["derive"] }
