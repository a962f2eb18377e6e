[package]
name = "opensky_node"
version = "0.1.0"
edition = "2021"
publish = false

[dependencies]
serde_json = "1"
log = "0.4"
env_logger = "0.11"
tokio = { version = "1", features = ["rt-multi-thread", "macros", "io-std", "io-util", "sync", "time"] }
warp = { version = "0.3", default-features = false }
libp2p = { version = "0.56", features = ["tokio", "tcp", "noise", "yamux", "mdns", "floodsub", "macros"] }
system-info = "*"
