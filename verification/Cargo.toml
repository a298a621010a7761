[package]
name = "discord_bot"
version = "0.1.0"
edition = "2021"
publish = false

[dependencies]
directories = "=5.0.1"
dotenvy = "=0.15.7"
poise = "=0.6.2"
tokio = { version = "=1.54.1", features = ["macros", "rt-multi-thread"] }
workflow-core = "0.18"
