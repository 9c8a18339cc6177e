[package]
name = "admiral"
version = "0.1.0"
edition = "2021"
publish = false

[dependencies]
rand = "0.8"
serenity = "0.12"
tokio = { version = "1", features = ["macros", "rt-multi-thread"] }
chrono = "0.4"

[dev-dependencies]
regex = "1"
