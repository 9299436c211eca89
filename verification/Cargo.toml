[package]
name = "logfwd"
version = "0.1.0"
edition = "2021"
publish = false

[dependencies]
anyhow = "*"
clap = { version = "*", features = ["derive"] }
hostname = "*"
reqwest = { version = "*", default-features = false }
tokio = { version = "*", features = ["io-util", "macros", "net", "rt-multi-thread", "signal"] }
users = "*"
