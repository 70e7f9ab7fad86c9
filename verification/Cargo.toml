[package]
name = "pipeline_manager"
version = "0.1.0"
edition = "2021"
publish = false

[dependencies]
serde_json = "*"
chrono = { version = "*", default-features = false, features = ["clock"] }
awc = { version = "*", default-features = false }
tokio = { version = "*", features = ["sync", "time", "rt", "macros"] }
anyhow = "*"
