[package]
name = "hf_amp"
version = "0.1.0"
edition = "2021"
publish = false

[dependencies]
anyhow = "=1.0.104"
askama = "=0.16.1"
async-stream = "=0.3.6"
axum = { version = "=0.8.9", features = ["multipart"] }
axum-extra = { version = "=0.12.6", features = ["typed-header"] }
chrono = "=0.4.45"
embedded-devices = { version = "=0.10.3", features = ["texas_instruments-ina228", "std"] }
embedded-hal = "=1.0.0"
embedded-hal-bus = { version = "=0.3.0", features = ["std"] }
embedded-hal-compat = "=0.13.0"
embedded-interfaces = "=0.10.3"
futures-util = "=0.3.34"
headers = "=0.4.2"
mcp230xx = "=1.0.2"
rppal = { version = "=0.22.1", features = ["hal"] }
serde = { version = "=1.0.229", features = ["derive"] }
serde_json = "=1.0.154"
tokio = { version = "=1.54.1", features = ["full"] }
tower-http = { version = "=0.7.1", features = ["fs"] }
uom = "=0.37.0"
