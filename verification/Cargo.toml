[package]
name = "raspberry_web"
version = "0.1.0"
edition = "2021"
publish = false

[dependencies]
chrono = "*"
clap = "*"
config = "*"
dotenv = "*"
env_logger = "*"
log = "*"
parking_lot = "*"
rppal = "*"
serde = { version = "*", features = ["derive"] }
serde_json = "*"
