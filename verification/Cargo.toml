[package]
name = "arun"
version = "0.1.0"
edition = "2021"
publish = false

[dependencies]
bollard = "*"
tokio = { version = "*", features = ["macros", "rt-multi-thread", "sync", "time", "io-std", "io-util"] }
serde = { version = "*", features = ["derive"] }
serde_json = "*"
futures = "*"
clap = { version = "*", features = ["derive"] }
