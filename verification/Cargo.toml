[package]
name = "zmq_json_validator"
version = "0.1.0"
edition = "2021"
publish = false

[dependencies]
assert-json-diff = "2"
clap = { version = "4", features = ["derive", "env"] }
serde = { version = "1", features = ["derive"] }
serde_json = "1"
zmq = "0.10"
