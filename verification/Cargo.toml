[package]
name = "app_work"
version = "0.1.0"
edition = "2021"
publish = false

[dependencies]
arbitrary = { version = "*", features = ["derive"] }
clap = { version = "*", features = ["derive"] }
cloud_terrastodon_azure = "*"
eyre = "*"
itertools = "*"
ratatui = "=0.30.2"
serde_json = "*"
tokio = { version = "=1.53.2", features = ["rt", "sync", "time"] }
tracing = "*"
