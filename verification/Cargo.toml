[package]
name = "builder_core"
version = "0.1.0"
edition = "2021"
publish = false

[dependencies]
anyhow = "=1.0.104"
async-broadcast = "=0.7.2"
async-lock = "=3.4.2"
async-std = "=1.13.2"
committable = "=0.2.4"
ethers = { version = "=2.0.14", default-features = false }
futures = "=0.3.34"
serde = { version = "=1.0.229", features = ["derive"] }
serde_json = "=1.0.154"
sha2 = "=0.10.9"
tracing = "=0.1.44"
url = "=2.5.8"
