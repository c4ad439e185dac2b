[package]
name = "abci_server"
version = "0.1.0"
edition = "2021"
publish = false

[dependencies]
getrandom = "0.2"
tracing = { version = "0.1", default-features = false, features = ["std"] }
uuid = { version = "1", default-features = false }
