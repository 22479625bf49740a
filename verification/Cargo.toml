[package]
name = "control_interface"
version = "0.1.0"
edition = "2021"
publish = false

[dependencies]
wascap = "*"
uuid = { version = "*", features = ["v4"] }
nats = "*"
futures = "*"
actix-rt = "*"
