[package]
name = "steam_bridge"
version = "0.1.0"
edition = "2021"
publish = false

[dependencies]
steamworks = "*"
napi = { version = "2", features = ["napi4", "async"] }
napi-derive = "2"
tokio = { version = "1", features = ["rt", "time"] }
