[package]
name = "chatapp"
version = "0.1.0"
edition = "2021"
publish = false

[dependencies]
fr-rust = "=0.1.8"
actix-web = "=4.18.1"
actix-ws = "=0.4.0"
tokio = { version = "=1.54.1", features = ["rt", "macros", "sync", "time"] }
futures-util = "=0.3.34"
serde = { version = "=1.0.229", features = ["derive"] }
serde_json = "=1.0.154"
deadpool-redis = "*"
