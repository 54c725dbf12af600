[package]
name = "queue_sync"
version = "0.1.0"
edition = "2021"
publish = false

[dependencies]
async-trait = "0.1"
dotenv = "0.15"
env_logger = "0.11"
futures = "0.3"
log = "0.4"
rdkafka = "*"
serde = { version = "1", features = ["derive"] }
serde_json = "1"
tokio = { version = "1", features = ["full"] }
uuid = { version = "1", features = ["v4"] }
