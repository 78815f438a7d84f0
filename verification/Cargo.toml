[package]
name = "continuum"
version = "0.1.0"
edition = "2021"
publish = false

[dependencies]
async-trait = "0.1"
ndarray = "0.16"
ndarray-linalg = "0.17"
parking_lot = "0.12"
serde = { version = "1", features = ["derive"] }
serde_json = "1"
thiserror = "1"
tokio = { version = "1", features = ["rt-multi-thread", "sync", "time", "macros"] }
