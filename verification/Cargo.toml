[package]
name = "askama_shared"
version = "0.1.0"
edition = "2021"
publish = false

[dependencies]
chrono = { version = "0.4", default-features = false, features = ["std"] }
regex = "1"
serde_json = "1"
serde_yaml = "0.8"

[dev-dependencies]
serde = "1"
