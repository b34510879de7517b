[package]
name = "matrixtui"
version = "0.1.0"
edition = "2021"
publish = false

[dependencies]
anyhow = "*"
crossterm = "*"
dirs = "*"
futures-util = "*"
matrix-sdk = { version = "*", default-features = false, features = ["native-tls"] }
mime = "*"
serde = { version = "*", features = ["derive"] }
serde_json = "*"
tokio = { version = "*", default-features = false, features = ["rt-multi-thread", "macros", "sync", "time"] }
