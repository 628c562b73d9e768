[package]
name = "manhunt"
version = "0.1.0"
edition = "2021"
publish = false

[dependencies]
rand = "=0.9.5"
rand_chacha = "=0.9.0"
chrono = { version = "=0.4.45", default-features = false, features = ["std", "clock", "serde"] }
uuid = { version = "=1.29.0", features = ["v4", "serde"] }
serde = { version = "=1.0.229", features = ["derive"] }
rmp-serde = "=1.3.1"
anyhow = "=1.0.104"
log = "=0.4.34"
tokio = { version = "=1.54.1", features = ["sync", "time", "macros", "rt"] }
tokio-util = "=0.7.20"
futures = "=0.3.34"
matchbox_socket = "=0.14.0"
matchbox_protocol = "=0.14.0"
matchbox_signaling = "*"
axum = "0.8"
async-trait = "0.1"
reqwest = { version = "=0.13.5", default-features = false }
