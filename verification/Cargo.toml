[package]
name = "tsukimi"
version = "0.4.3"
edition = "2021"
publish = false

[dependencies]
async-channel = "*"
dirs = "*"
reqwest = { version = "*", default-features = false, features = ["json"] }
serde = { version = "*", features = ["derive"] }
serde_json = "*"
tokio = { version = "*", features = ["rt-multi-thread", "sync", "time"] }
toml = "*"
uuid = { version = "*", features = ["v4"] }
