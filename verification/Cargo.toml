[package]
name = "velox"
version = "0.1.0"
edition = "2021"
publish = false

[dependencies]
url = "*"
base62 = "*"
rand = "*"
serde = { version = "*", features = ["derive"] }
actix-web = "*"
deadpool-redis = "*"
thiserror = "*"
tracing = "*"
tracing-subscriber = "*"
