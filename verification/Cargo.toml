[package]
name = "blob_spammer"
version = "0.1.0"
edition = "2021"
publish = false

[dependencies]
celestia-rpc = "*"
celestia-types = "*"
jsonrpsee = { version = "*", features = ["http-client"] }
rand = "0.9"
tokio = { version = "1", features = ["macros", "rt-multi-thread", "time"] }
tracing = "0.1"
tracing-subscriber = "0.3"
