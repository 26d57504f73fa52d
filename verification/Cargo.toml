[package]
name = "keyper"
version = "0.1.0"
edition = "2021"
publish = false

[dependencies]
anyhow = "1"
axum = "0.7"
chrono = "0.4"
getopts = "0.2"
rand = "0.8"
serde = { version = "1", features = ["derive"] }
tera = "1"
tokio = { version = "1", features = ["macros", "rt-multi-thread", "net"] }
toml = "0.8"
tracing = "0.1"
tracing-subscriber = "0.3"
