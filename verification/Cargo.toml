[package]
name = "hyper_websocket"
version = "0.1.0"
edition = "2021"
publish = false

[dependencies]
sha1 = "*"
base64 = "*"
bytes = "0.4"
futures = "0.1"
hyper = "0.11"
tokio-io = "0.1"
websocket = { version = "*", default-features = false, features = ["async"] }
