[package]
name = "serena"
version = "0.1.0"
edition = "2021"
publish = false

[dependencies]
clap = "=2.34.0"
hyper = { version = "=0.14.32", features = ["full"] }
notify = "=4.0.18"
tokio = { version = "=1.53.2", features = ["full"] }
tokio-stream = "=0.1.19"
tokio-util = { version = "=0.7.19", features = ["codec"] }
