[package]
name = "cache_resolver"
version = "0.1.0"
edition = "2021"
publish = false

[dependencies]
async-trait = "*"
futures = "*"
redis = { version = "*", features = ["tokio-comp"] }
serde = "*"
serde_json = "*"
tower = "*"
tracing = "*"
