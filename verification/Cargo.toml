[package]
name = "talpid_types"
version = "0.1.0"
edition = "2021"
publish = false

[dependencies]
ipnetwork = "*"
serde = { version = "1", features = ["derive"] }
