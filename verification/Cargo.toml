[package]
name = "dap_debugger"
version = "0.1.0"
edition = "2021"
publish = false

[dependencies]
debug_types = "=1.0.0"
futures = "=0.3.34"
serde_json = "=1.0.154"
tokio = { version = "=1.54.1", features = ["rt", "io-std", "io-util"] }
tokio-util = { version = "=0.7.20", features = ["codec"] }
