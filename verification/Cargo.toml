[package]
name = "notedly"
version = "0.1.0"
edition = "2021"
publish = false

[dependencies]
sha3 = "*"
hex = "*"
serde = { version = "*", features = ["derive"] }
serde_json = "*"
actix-web = "*"
clap = { version = "*", features = ["derive"] }
log = "*"
env_logger = "*"
