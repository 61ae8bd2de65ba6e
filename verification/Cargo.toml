[package]
name = "web_crawler"
version = "0.1.0"
edition = "2021"
publish = false

[dependencies]
anyhow = "1"
regex = "1"
url = "2"
uuid = { version = "1", features = ["v4"] }
whatlang = "0.16"
rand = "0.8"
unicode-segmentation = "1"
serde = { version = "1", features = ["derive"] }
serde_json = "1"
toml = "0.8"
tokio = { version = "1", features = ["full"] }
tokio-util = "0.7"
futures = "0.3"
tracing = "0.1"
tracing-subscriber = "0.3"
chrono = "0.4"
bloom = "0.3"
bytes = "1"
async-trait = "0.1"
reqwest = { version = "0.12", default-features = false }
