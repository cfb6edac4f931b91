[package]
name = "covid_stats_bot"
version = "0.1.0"
edition = "2021"
publish = false

[dependencies]
serde_json = "*"
chrono = "*"
anyhow = "*"
futures = "*"
tokio = { version = "*", features = ["full"] }
reqwest = { version = "*", default-features = false }
telegram-bot = "*"
hyper = "0.13"
hyper-tls = "0.4"
hyper-socks2 = "0.5"
async-socks5 = "0.3"
