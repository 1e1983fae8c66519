[package]
name = "feature_flags"
version = "0.1.0"
edition = "2021"
publish = false

[dependencies]
siphasher = "*"
serde = { version = "*", features = ["derive"] }
serde_json = "*"
toml = "*"
thiserror = "*"
anyhow = "*"
chrono = "*"
uuid = { version = "*", features = ["v4"] }
tracing = "*"
tracing-subscriber = { version = "*", features = ["env-filter", "json"] }
tempfile = "*"
