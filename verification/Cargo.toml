[package]
name = "worker_client"
version = "0.1.0"
edition = "2021"
publish = false

[dependencies]
async-trait = "0.1"
futures-util = "0.3"
parking_lot = "0.12"
prost = "0.14"
prost-types = "0.14"
tonic = { version = "0.14", default-features = false }
tonic-types = { version = "0.14", default-features = false }
uuid = { version = "1", features = ["v4"] }
