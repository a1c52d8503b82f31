[package]
name = "redis_toolkit"
version = "0.1.0"
edition = "2021"
publish = false

[dependencies]
tokio = { version = "=1.54.1", features = ["rt", "rt-multi-thread", "sync", "time", "macros"] }
futures-util = "=0.3.34"
azure_core = "0.25.0"
azure_identity = { version = "0.25.0", features = ["client_certificate"] }
