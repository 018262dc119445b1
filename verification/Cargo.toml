[package]
name = "hiven_rs"
version = "0.1.0"
edition = "2021"
publish = false

[dependencies]
async-tungstenite = { version = "*", features = ["tokio-runtime"] }
futures = "0.3"
reqwest = { version = "*", default-features = false }
serde_json = { version = "1", features = ["preserve_order"] }
tokio = { version = "1", features = ["macros", "rt", "sync", "time"] }
