[package]
name = "latmon"
version = "0.1.0"
edition = "2021"
publish = false

[dependencies]
futures = "*"
rand = "*"
tokio = { version = "*", features = ["macros", "rt", "signal", "time"] }
tokio-icmp-echo = "*"
