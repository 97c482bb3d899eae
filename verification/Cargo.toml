[package]
name = "stratking"
version = "0.1.0"
edition = "2021"
publish = false

[dependencies]
serde = { version = "*", features = ["derive"] }
serde_json = "*"
tokio = { version = "*", features = ["rt-multi-thread", "macros", "sync", "time", "net"] }
tokio-tungstenite = "*"
futures-util = "*"
reqwest = { version = "*", default-features = false, features = ["json"] }
