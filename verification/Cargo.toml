[package]
name = "ipc_server"
version = "0.1.0"
edition = "2021"
publish = false

[dependencies]
serde_json = "1"
interprocess = { version = "1", default-features = false }
daemonize = "0.4"
