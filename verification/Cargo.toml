[package]
name = "payout_pipeline"
version = "0.1.0"
edition = "2021"
publish = false

[dependencies]
base64 = "0.22"
bincode = "1"
reqwest = { version = "0.11", default-features = false, features = ["json"] }
serde = { version = "1", features = ["derive"] }
