[package]
name = "download_manager"
version = "0.1.0"
edition = "2021"
publish = false

[dependencies]
camino = "1"
clap = { version = "4", features = ["derive"] }
color-eyre = "0.6"
eyre = "0.6"
fs-err = { version = "*", features = ["tokio"] }
futures = "0.3"
reqwest = { version = "*", features = ["stream"] }
serde = { version = "1", features = ["derive"] }
tokio = { version = "1", features = ["full"] }
toml = "*"
tracing = "0.1"
tracing-subscriber = "0.3"
url = { version = "2", features = ["serde"] }
