[package]
name = "magician"
version = "0.1.0"
edition = "2021"
publish = false

[dependencies]
chrono = "0.4"
termion = "*"
toml = "0.8"
serenity = "0.12"
sqlx = { version = "0.8", default-features = false, features = ["sqlite", "runtime-tokio", "migrate"] }
tokio = { version = "1", features = ["macros", "rt-multi-thread"] }
