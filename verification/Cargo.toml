[package]
name = "kiwirecorder"
version = "0.1.0"
edition = "2021"
publish = false

[dependencies]
anyhow = "1"
byteorder = "1"
colored = "2"
futures-util = "0.3"
hound = "3"
log = "0.4"
rand = "0.8"
regex = "1"
serde = { version = "1", features = ["derive"] }
simple_logger = "4"
tokio = { version = "1", features = ["full"] }
tokio-tungstenite = "0.20"
tokio-util = "0.7"
toml = "0.8"
url = "2"
