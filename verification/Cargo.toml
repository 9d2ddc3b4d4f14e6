[package]
name = "nongli"
version = "0.1.0"
edition = "2021"

[dependencies]
anstyle = "1"
chrono = { version = "0.4", features = ["serde"] }
clap = { version = "4", features = ["cargo"] }
serde = { version = "1", features = ["derive"] }
