[package]
name = "mqtt_channel_client"
version = "0.1.0"
edition = "2021"
publish = false

[dependencies]
derive_builder = "*"
log = "*"
paho-mqtt = "*"
prometheus-client = "*"
thiserror = "*"
tokio = { version = "*", features = ["macros", "rt", "rt-multi-thread", "sync", "time"] }
