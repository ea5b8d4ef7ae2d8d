[package]
name = "astria_bridge"
version = "0.1.0"
edition = "2021"
publish = false

[dependencies]
anyhow = "=1.0.104"
bytes = "=1.12.1"
eyre = "=0.6.14"
hex = "=0.4.3"
pbjson-types = "=0.6.0"
prost = "=0.12.6"
serde = { version = "=1.0.229", features = ["derive"] }
tendermint = "=0.34.1"
thiserror = "=1.0.69"
tokio = { version = "=1.54.1", features = ["sync", "time"] }
tokio-util = "=0.7.20"
tracing = "=0.1.44"
