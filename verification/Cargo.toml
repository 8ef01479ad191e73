[package]
name = "task_crud"
version = "0.1.0"
edition = "2021"
publish = false

[dependencies]
yaml-rust = "*"
serde = { version = "*", features = ["derive"] }
actix = "*"
actix-web = "*"
actix-redis = "*"
redis-async = "*"
futures = "*"
env_logger = "*"
listenfd = "*"
