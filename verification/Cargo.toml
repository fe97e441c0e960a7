[package]
name = "serde_v8"
version = "0.1.0"
edition = "2021"
publish = false

[dependencies]
rusty_v8 = "*"
serde = "1.0"

[dev-dependencies]
serde_json = "1.0"
