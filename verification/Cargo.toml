[package]
name = "reward_simulator"
version = "0.1.0"
edition = "2021"
publish = false

[dependencies]
rand = "0.7"
integer-sqrt = "0.1"
clap = "2"
serde = { version = "1", features = ["derive"] }
serde_json = "1"
