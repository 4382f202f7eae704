[package]
name = "mangetsu"
version = "0.1.0"
edition = "2021"
publish = false

[dependencies]
async-stream = "0.3"
druid = { version = "0.7", features = ["im", "image", "jpeg", "png"] }
flume = "0.10"
futures = "0.3"
indexmap = "1"
log = "0.4"
lru-cache = "*"
once_cell = "1"
platform-dirs = "*"
regex = "1"
reqwest = { version = "0.11", default-features = false, features = ["rustls-tls"] }
sanitize-filename = "*"
scraper = "*"
serde = { version = "1", features = ["derive"] }
serde_json = "1"
tokio = { version = "1", features = ["rt", "rt-multi-thread", "macros"] }
verbatim = "*"
