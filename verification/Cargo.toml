[package]
name = "neocam"
version = "0.1.0"
edition = "2021"
publish = false

[dependencies]
anyhow = "1"
crossbeam = "0.8"
futures = "0.3"
gstreamer = "0.21"
gstreamer-app = "0.21"
log = "0.4"
tokio = { version = "1", features = ["rt-multi-thread", "sync", "time", "macros"] }
tokio-stream = { version = "0.1", features = ["sync"] }
tokio-util = "0.7"
