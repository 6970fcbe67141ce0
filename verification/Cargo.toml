[package]
name = "alvr_server"
version = "0.1.0"
edition = "2021"
publish = false

[dependencies]
chrono = "0.4"
sysinfo = "0.30"
tokio = { version = "1", features = ["rt-multi-thread", "sync"] }
