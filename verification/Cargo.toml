[package]
name = "fungraph"
version = "0.1.0"
edition = "2021"
publish = false

[dependencies]
petgraph = "=0.8.3"
serde_json = "=1.0.154"
serde = { version = "=1.0.229", features = ["derive"] }
anyhow = "=1.0.104"
thiserror = "=2.0.21"
async-trait = "=0.1.92"
futures = "=0.3.34"
log = "=0.4.34"
reqwest = { version = "=0.12.28", default-features = false, features = ["stream"] }
reqwest-eventsource = "=0.6.0"
tokio = { version = "=1.54.1", features = ["rt", "rt-multi-thread", "macros", "sync", "process", "fs", "io-std", "io-util", "time"] }
tokio-stream = "=0.1.19"
rmcp = { version = "=3.7.0", features = ["client", "transport-child-process", "transport-streamable-http-client-reqwest"] }
toml = "=1.1.8"
