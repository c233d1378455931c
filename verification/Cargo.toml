[package]
name = "echo_chain"
version = "0.1.0"
edition = "2021"
publish = false

[dependencies]
actix-rt = "2"
actix-web = { version = "4", default-features = false }
awc = { version = "3", default-features = false }
env_logger = "0.11"
futures = "0.3"
serde = { version = "1", features = ["derive"] }
serde_json = "1"
