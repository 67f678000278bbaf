[package]
name = "playback_core"
version = "0.1.0"
edition = "2021"
publish = false

[dependencies]
url = "2"
rand = "0.8"
html-escape = "0.2"
log = "0.4"
env_logger = "0.10"
chrono = "0.4"
futures = "0.3"
tokio = { version = "1", features = ["macros", "rt-multi-thread", "sync"] }
serenity = "0.11"
poise = "0.5"
songbird = "0.3"
google-youtube3 = "5"
hyper = { version = "0.14", features = ["client"] }
hyper-rustls = "0.24"
