[package]
name = "kitchen_sink_demo"
version = "0.1.0"
edition = "2021"
publish = false

[dependencies]
http-body-util = "=0.1.5"
serde = { version = "=1.0.229", features = ["derive"] }
tokio = { version = "=1.54.1", features = ["full"] }
tokio-stream = "=0.1.19"
vercel_runtime = "=2.4.1"
