[package]
name = "hardware_alarm"
version = "0.1.0"
edition = "2021"
publish = false

[dependencies]
infer = "*"
rodio = "*"
serde = { version = "1", features = ["derive"] }
sysinfo = "*"
tokio = { version = "1", features = ["rt-multi-thread", "macros", "time", "process", "sync"] }
tokio-util = "*"
