[package]
name = "dely"
version = "0.1.0"
edition = "2021"
publish = false

[dependencies]
image = "*"
mp4parse = "*"
eventstore = "*"
meilisearch-sdk = "*"
tokio = { version = "*", features = ["full"] }
serde = { version = "*", features = ["derive"] }
serde_json = "*"
config = "*"
chrono = { version = "*", features = ["serde"] }
tracing = "*"
tracing-subscriber = "*"
rs-snowflake = "*"
uuid = { version = "*", features = ["serde"] }
async-trait = "*"
bytes = "*"
