[package]
name = "modbot"
version = "0.1.0"
edition = "2021"
publish = false

[dependencies]
anyhow = "1"
humantime = "=2.4.0"
poise = "=0.6.2"
regex = "=1.13.1"
shuttle-runtime = "0.57"
shuttle-serenity = "0.57"
shuttle-shared-db = { version = "0.57", features = ["postgres", "sqlx"] }
sqlx = { version = "0.8", features = ["postgres", "runtime-tokio"] }
tokio = "1"
