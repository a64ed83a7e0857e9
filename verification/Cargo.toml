[package]
name = "daphuulbot"
version = "0.1.0"
edition = "2021"
publish = false

[dependencies]
anyhow = "1"
chrono = "0.4"
dotenv = "0.15"
lazy_static = "1"
linkify = "0.8"
regex = "1"
reqwest = "0.11"
select = "0.5"
serenity = "0.10"
thiserror = "1"
tokio = { version = "1", features = ["macros", "rt-multi-thread"] }
tracing = "0.1"
tracing-subscriber = "0.3"
