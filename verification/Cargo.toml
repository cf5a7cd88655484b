[package]
name = "mqtt_bridge"
version = "0.1.0"
edition = "2021"
publish = false

[dependencies]
serde_json = "1"
serde = { version = "1", features = ["derive"] }
tokio = { version = "1", features = ["full"] }
axum = "0.7"
clap = { version = "4", features = ["derive"] }
colored = "2"
futures-util = "0.3"
mimalloc = "0.1"
paho-mqtt = "0.12"
