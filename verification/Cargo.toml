[package]
name = "pathfinder"
version = "0.1.0"
edition = "2021"
publish = false

[dependencies]
json = "*"
uuid = { version = "*", features = ["v4"] }
clap = { version = "*", features = ["derive"] }
config = { version = "*", default-features = false, features = ["yaml"] }
tokio = { version = "*", features = ["rt-multi-thread", "macros", "net", "sync", "io-util", "time"] }
tokio-tungstenite = "*"
futures-util = "*"
lapin = "*"
