[package]
name = "backend"
version = "0.1.0"
edition = "2021"
publish = false

[dependencies]
bollard = "=0.14.0"
bson = "=2.15.0"
env_logger = "=0.10.2"
futures-util = "=0.3.34"
log = "=0.4.34"
r2d2 = "=0.8.10"
r2d2_sqlite = "=0.22.0"
serde = { version = "=1.0.229", features = ["derive"] }
serde_json = { version = "=1.0.154", features = ["preserve_order"] }
tokio = { version = "=1.54.1", features = ["full"] }
tokio-tungstenite = "=0.20.1"
