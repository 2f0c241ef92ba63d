[package]
name = "message_pipeline"
version = "0.1.0"
edition = "2021"
publish = false

[dependencies]
indexmap = "*"
iso8601-timestamp = "*"
ulid = "*"
validator = { version = "*", features = ["derive"] }
