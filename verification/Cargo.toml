[package]
name = "sfo_reuseport"
version = "0.1.0"
edition = "2021"
publish = false

[dependencies]
getrandom = "0.3"
num_cpus = "1"
socket2 = { version = "0.5", features = ["all"] }
atomic-waker = "1"
async-executor = "1"
tokio = { version = "1", features = ["rt", "net", "sync", "macros", "time"] }
