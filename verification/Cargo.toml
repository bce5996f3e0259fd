[package]
name = "poc_rpc"
version = "0.1.0"
edition = "2021"
publish = false

[dependencies]
futures = "0.3"
futures-timer = "3"
parking_lot = "0.12"
serde = { version = "1", features = ["derive"] }
