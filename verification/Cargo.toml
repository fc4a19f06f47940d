[package]
name = "stream_gateway"
version = "0.1.0"
edition = "2021"
publish = false

[dependencies]
chrono = "=0.4.45"
fern = "=0.6.2"
log = "=0.4.34"
rouille = "=3.6.2"
serde = { version = "=1.0.229", features = ["derive"] }
serde_json = "=1.0.154"
