[package]
name = "redis_ac"
version = "0.1.0"
edition = "2021"
publish = false

[dependencies]
redis = { version = "*", features = ["tokio-comp"] }
futures = "*"
tokio = { version = "*", features = ["sync", "macros", "rt"] }
