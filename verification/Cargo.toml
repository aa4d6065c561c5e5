[package]
name = "serde_string_enum"
version = "0.1.0"
edition = "2021"
publish = false

[dependencies]
unicase = "2"
serde = "1"

[dev-dependencies]
serde_json = "1"
