[package]
name = "autotile"
version = "0.1.0"
edition = "2021"
publish = false

[dependencies]
anyhow = "*"
flexi_logger = "*"
log = "*"
tokio = { version = "*", features = ["full"] }
tokio-i3ipc = "*"
tokio-stream = "*"
