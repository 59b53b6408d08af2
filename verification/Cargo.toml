[package]
name = "spark_connect"
version = "0.1.0"
edition = "2021"
publish = false

[dependencies]
bytes = "1"
uuid = { version = "1", features = ["v4"] }
arrow = { version = "*", default-features = false, features = ["ipc"] }
