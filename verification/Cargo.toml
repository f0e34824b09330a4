[package]
name = "lib_core"
version = "0.1.0"
edition = "2021"
publish = false

[dependencies]
mongodb = "*"
serde = { version = "*", features = ["derive"] }
futures = "*"
uuid = { version = "*", features = ["v4"] }
