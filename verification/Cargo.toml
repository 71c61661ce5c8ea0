[package]
name = "goosefs_sdk"
version = "0.1.0"
edition = "2021"
publish = false

[dependencies]
async-trait = "=0.1.92"
bytes = "=1.12.1"
dashmap = "=6.2.1"
hostname = "=0.4.2"
lru = "=0.19.0"
reqwest = { version = "=0.13.5", default-features = false }
serde = { version = "=1.0.229", features = ["derive"] }
thiserror = "=2.0.21"
tokio = { version = "=1.54.1", features = ["full"] }
tonic = { version = "=0.14.9", default-features = false, features = ["channel"] }
tracing = "=0.1.44"
uuid = { version = "=1.29.0", features = ["v4"] }
