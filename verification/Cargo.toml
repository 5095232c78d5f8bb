[package]
name = "rustcharts"
version = "0.1.0"
edition = "2021"
publish = false

[dependencies]
chrono = "0.4"
plotters = "0.3"
serde = { version = "1", features = ["derive"] }
serde_json = "1"
zmq = "0.10"
