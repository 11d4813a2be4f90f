[package]
name = "dj_ferris"
version = "0.1.0"
edition = "2021"
publish = false

[dependencies]
dotenvy = "*"
lavalink-rs = "*"
serenity = "0.12"
songbird = { version = "0.4", default-features = false, features = ["serenity", "gateway", "rustls"] }
tokio = { version = "1", features = ["macros", "rt-multi-thread", "sync"] }
tracing = "*"
tracing-subscriber = { version = "*", features = ["env-filter"] }
