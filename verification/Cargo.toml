[package]
name = "router_scheduler"
version = "0.1.0"
edition = "2021"
publish = false

[dependencies]
error-stack = "0.3"
futures = "0.3"
serde = { version = "1", features = ["derive"] }
serde_json = "1"
time = "0.3"
uuid = { version = "1", features = ["v4"] }
