[package]
name = "token_metadata"
version = "0.1.0"
edition = "2021"
publish = false

[dependencies]
csv = "1"
serde_json = { version = "1", features = ["preserve_order"] }
tokio = { version = "1", features = ["fs", "macros", "rt-multi-thread"] }
