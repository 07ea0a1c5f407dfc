[package]
name = "soroban_rpc"
version = "0.1.0"
edition = "2021"
publish = false

[dependencies]
soroban-env-host = "*"
jsonrpsee-core = "*"
jsonrpsee-http-client = "*"
serde = { version = "*", features = ["derive"] }
serde_json = "*"
thiserror = "*"
tokio = { version = "*", features = ["time"] }
clap = { version = "*", features = ["derive"] }
