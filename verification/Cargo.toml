[package]
name = "turbo_cache"
version = "0.1.0"
edition = "2021"
publish = false

[dependencies]
actix-web = "4"
actix-cors = "*"
serde = { version = "1", features = ["derive"] }
object_store = { version = "*", features = ["aws", "gcp", "azure"] }
futures-util = "*"
log = "*"
env_logger = "*"
dotenvy = "*"
