[package]
name = "ld44"
version = "0.1.0"
edition = "2021"
publish = false

[dependencies]
base64 = "0.13"
serde = { version = "1", features = ["derive"] }
serde_json = "1"
ron = "*"
json = "*"
chrono = "0.4"
climer = "*"

[dev-dependencies]
regex = "1"
