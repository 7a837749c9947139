[package]
name = "dustdb"
version = "0.1.0"
edition = "2021"
publish = false

[dependencies]
serde_json = "*"
rand = "*"
futures = "*"
tokio = { version = "*", features = ["macros", "rt-multi-thread", "net", "io-util"] }
tokio-stream = "*"
tokio-util = { version = "*", features = ["codec"] }
