[package]
name = "custom_type"
version = "0.1.0"
edition = "2021"
publish = false

[dependencies]
derive_more = "0.99"
serde = { version = "1", features = ["derive"] }

[dev-dependencies]
regex = "1"
serde_json = "1"
