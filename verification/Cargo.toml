[package]
name = "syncx"
version = "0.1.0"
edition = "2021"
publish = false

[dependencies]
dashmap = "6"
flume = "0.11"
parking_lot = { version = "0.12", features = ["arc_lock", "send_guard"] }
pyo3 = "0.26"
