[package]
name = "sensor_suricata_service_rust"
version = "0.1.0"
edition = "2021"
publish = false

[dependencies]
sha2 = "*"
hex = "*"
log = "*"
env_logger = "*"
clap = { version = "*", features = ["derive"] }
serde = { version = "*", features = ["derive"] }
simd-json = "*"
tokio = { version = "*", features = ["full"] }
tonic = "*"
prost = "*"
async-stream = "*"
tikv-jemallocator = "*"
