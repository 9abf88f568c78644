[package]
name = "fitgirl-torrent-scrap"
version = "0.1.0"
edition = "2021"
publish = false

[dependencies]
argh = "=0.1.19"
ctrlc = "=3.5.2"
fitgirl-decrypt = { version = "=0.5.0", default-features = false, features = ["nyquest"] }
kanal = "=0.1.1"
nyquest = { version = "=0.3.1", features = ["async"] }
nyquest-preset = { version = "=0.3.0", features = ["async"] }
redb = "=4.4.0"
scraper = "=0.29.0"
spdlog-rs = "=0.5.3"
tokio = { version = "=1.54.1", features = ["macros", "rt-multi-thread"] }

[dev-dependencies]
aes-gcm = "=0.10.3"
ring = "=0.17.14"
serde_json = "=1.0.154"
