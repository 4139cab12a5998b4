[package]
name = "license_check"
version = "0.1.0"
edition = "2021"
publish = false

[dependencies]
async-trait = "0.1"
chrono = "0.4"
logkit = "*"
serde = { version = "1", features = ["derive"] }
