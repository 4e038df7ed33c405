[package]
name = "whisky_core"
version = "0.1.0"
edition = "2021"
publish = false

[dependencies]
cardano-serialization-lib = "11.5.0"
uplc = "*"
serde = { version = "1", features = ["derive"] }
serde_json = "1"
