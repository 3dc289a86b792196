[package]
name = "kafka_benchmark"
version = "0.1.0"
edition = "2021"
publish = false

[dependencies]
base64 = "*"
clap = "*"
env_logger = "*"
rand = "*"
rdkafka = "*"
serde = { version = "*", features = ["derive"] }
serde_yaml = "*"
