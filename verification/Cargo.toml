[package]
name = "service_wrappers"
version = "0.1.0"
edition = "2021"
publish = false

[dependencies]
rustdds = "*"
serde = { version = "1", features = ["derive"] }
bytes = "1"
log = "0.4"
