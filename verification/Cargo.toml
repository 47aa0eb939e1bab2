[package]
name = "rs_voice_controller"
version = "0.1.0"
edition = "2021"
publish = false

[dependencies]
rand = "0.9"
poise = "0.6"
sqlx = { version = "0.8", default-features = false, features = ["runtime-tokio", "sqlite", "migrate"] }
tokio = { version = "1", features = ["macros", "rt-multi-thread", "fs"] }
tracing = "0.1"
tracing-subscriber = "0.3"
dotenvy = "0.15"
anyhow = "1"
