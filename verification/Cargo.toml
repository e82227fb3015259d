[package]
name = "sim_protocol"
version = "0.1.0"
edition = "2021"
publish = false

[dependencies]
compact_str = { version = "=0.10.0", features = ["serde"] }
serde = { version = "=1.0.229", features = ["derive"] }
