[package]
name = "sensor_net"
version = "0.1.0"
edition = "2021"
publish = false

[dependencies]
chrono = "0.4"
env_logger = "0.10"
futures = "0.3"
hex = "0.4"
hyper = { version = "0.14", features = ["full"] }
hyper-tls = "0.5"
libc = "0.2"
log = "0.4"
openssl = "0.10"
reqwest = "0.11"
serde = { version = "1", features = ["derive"] }
serde_json = "1"
tokio = { version = "1", features = ["full"] }
tokio-native-tls = "0.3"
