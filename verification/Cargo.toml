[package]
name = "tz_nickname"
version = "0.1.0"
edition = "2021"
publish = false

[dependencies]
dotenv = "0.15"
serenity = { version = "0.10", default-features = false, features = ["client", "gateway", "model", "rustls_backend", "unstable_discord_api"] }
tokio = { version = "1", features = ["macros", "rt-multi-thread"] }

[dev-dependencies]
regex = "1"
