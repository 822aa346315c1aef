[package]
name = "ruche"
version = "0.1.0"
edition = "2021"
publish = false

[dependencies]
urlencoding = "=2.1.3"
dashmap = "=6.2.1"
serde = { version = "1", features = ["derive"] }
serde_json = "1"
