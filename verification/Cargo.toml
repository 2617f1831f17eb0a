[package]
name = "quictor"
version = "0.1.0"
edition = "2021"
publish = false

[dependencies]
anyhow = "*"
quinn = "*"
rcgen = "*"
rustls = "*"
tokio = { version = "*", features = ["rt-multi-thread", "net", "io-util", "time", "macros"] }
