[package]
name = "gateway_client"
version = "0.1.0"
edition = "2021"
publish = false

[dependencies]
serde_json = "1"
futures = "0.1"
hyper = "0.12"
hyper-tls = "0.3"
native-tls = "0.2"
tokio = "0.1"
tokio-core = "0.1"
websocket = "0.26"
