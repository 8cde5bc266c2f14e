[package]
name = "ljsonrpc_over_tcp"
version = "0.1.0"
edition = "2021"
publish = false

[dependencies]
serde_json = "1"
clap = { version = "4", features = ["derive"] }
tokio = { version = "1", features = ["rt-multi-thread", "net", "io-util", "signal", "time", "macros"] }
tokio-util = "0.7"
