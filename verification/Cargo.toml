[package]
name = "tcp_proxy"
version = "0.1.0"
edition = "2021"
publish = false

[dependencies]
clap = { version = "4", features = ["derive"] }
hex = "0.4"
hyper = { version = "0.14", features = ["full"] }
socket2 = "0.5"
tokio = { version = "1", features = ["full"] }
