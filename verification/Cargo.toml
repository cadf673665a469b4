[package]
name = "evac"
version = "0.1.0"
edition = "2021"
publish = false

[dependencies]
md5 = "=0.7.0"
sha2 = "=0.10.9"
uuid = { version = "=1.27.0", features = ["v4", "serde"] }
rand = "=0.8.8"
chrono = "=0.4.45"
serde = { version = "=1.0.229", features = ["derive"] }
serde_json = "=1.0.151"
rmp-serde = "=1.3.1"
anyhow = "=1.0.104"
tokio = { version = "=1.53.2", features = ["rt-multi-thread", "net", "sync", "time", "macros", "signal"] }

[dev-dependencies]
hex = "=0.4.3"
