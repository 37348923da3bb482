[package]
name = "inference_server"
version = "0.1.0"
edition = "2021"
publish = false

[dependencies]
actix-web = "*"
flume = "*"
futures = "*"
lock_api = "*"
parking_lot = "*"
serde = { version = "*", features = ["derive"] }
