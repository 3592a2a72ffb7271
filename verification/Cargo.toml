[package]
name = "zed_core"
version = "0.1.0"
edition = "2021"
publish = false

[dependencies]
anyhow = "=1.0.104"
clap = { version = "=4.6.7", features = ["derive"] }
dirs = "=6.0.0"
futures = "=0.3.34"
getrandom = "=0.4.3"
log = "=0.4.35"
parking_lot = "=0.12.5"
serde = { version = "=1.0.229", features = ["derive"] }
serde_json = "=1.0.154"
shellexpand = "=3.1.2"
sled = "=0.34.7"
url = "=2.5.8"
uuid = { version = "=1.29.0", features = ["v4"] }
willow_25 = "=0.2.0"
willow-store-simple-sled = "=0.1.0"
