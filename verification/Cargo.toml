[package]
name = "ws_console"
version = "0.1.0"
edition = "2021"
publish = false

[dependencies]
flume = { version = "*", default-features = false }
term = "*"
websocket = { version = "*", default-features = false, features = ["sync"] }
