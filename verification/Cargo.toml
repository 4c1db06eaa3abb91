[package]
name = "timezoner"
version = "0.1.0"
edition = "2021"
publish = false

[dependencies]
aes-gcm-siv = "0.10"
anyhow = "1"
chrono-tz = "*"
futures = "0.3"
hex = "0.4"
sqlx = { version = "0.6", default-features = false, features = ["runtime-tokio-rustls", "sqlite"] }
tantivy = "0.18"
tokio = { version = "1", features = ["macros", "rt-multi-thread"] }
twilight-cache-inmemory = "0.10"
twilight-gateway = "0.10"
twilight-http = "0.10"
twilight-model = "0.10"
twilight-util = { version = "0.10", features = ["builder"] }
twilight-webhook = "0.10"
