[package]
name = "liblasso"
version = "0.1.0"
edition = "2021"
publish = false

[dependencies]
clap = "=2.34.0"
fern = "=0.5.9"
log = "=0.4.35"
rumqtt = "=0.10.1"
rusqlite = "=0.31.0"
serde = { version = "=1.0.229", features = ["derive"] }
serde_json = "=1.0.154"
thread-control = "=0.1.2"
