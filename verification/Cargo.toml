[package]
name = "yuque_backup"
version = "0.1.0"
edition = "2021"
publish = false

[dependencies]
anyhow = "1"
clap = { version = "4", features = ["derive"] }
futures = "0.3"
regex = "1"
reqwest = { version = "0.12", features = ["json", "stream"] }
serde = { version = "1", features = ["derive"] }
serde_json = "1"
time = { version = "0.3", features = ["serde-well-known", "formatting", "parsing"] }
tokio = { version = "1", features = ["rt", "fs", "time", "io-util"] }
url = "2"
