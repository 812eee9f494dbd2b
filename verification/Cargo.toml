[package]
name = "barista"
version = "0.1.0"
edition = "2021"
publish = false

[dependencies]
chrono = "0.4"
dotenvy = "0.15"
env_logger = "0.11"
log = "0.4"
poise = "0.6"
serde = { version = "1", features = ["derive"] }
serenity = "0.12"
sqlx = { version = "0.7", features = ["runtime-tokio", "postgres", "migrate"] }
thiserror = "1"
tokio = { version = "1", features = ["macros", "rt-multi-thread"] }
