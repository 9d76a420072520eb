[package]
name = "mpb"
version = "0.1.0"
edition = "2021"
publish = false

[dependencies]
chrono = "=0.4.45"
jsonwebtoken = "=9.3.1"
polodb_core = "=4.4.2"
serde = { version = "=1.0.229", features = ["derive"] }
serde_json = "=1.0.151"
