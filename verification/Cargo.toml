[package]
name = "op-cache"
version = "0.2.0"
edition = "2021"
publish = false

[dependencies]
anyhow = "1"
blake3 = "1"
directories = "5"
futures = "0.3"
libc = "0.2"
moka = { version = "0.12", features = ["sync"] }
serde = { version = "1", features = ["derive"] }
serde_yaml = "0.9"
tempfile = "3"
tokio = { version = "1", features = ["io-util", "macros", "net", "process", "rt-multi-thread", "signal", "sync", "time"] }
tracing = "0.1"
