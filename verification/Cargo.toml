[package]
name = "kvapp"
version = "0.1.0"
edition = "2021"
publish = false

[dependencies]
sled = "*"
actix-web = "*"
clap = { version = "*", features = ["derive"] }
env_logger = "*"
