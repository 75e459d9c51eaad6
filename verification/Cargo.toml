[package]
name = "akasa-core"
version = "0.1.0"
edition = "2021"
publish = false

[dependencies]
ahash = "=0.8.12"
allocator-api2 = "=0.2.21"
async-trait = "=0.1.92"
bytes = "=1.12.1"
flume = "=0.11.1"
futures-lite = "=1.13.0"
hashbrown = "=0.14.5"
log = "=0.4.34"
mqtt-proto = "=0.2.1"
parking_lot = "=0.12.5"
rand = "=0.8.8"
tokio = { version = "=1.54.1", default-features = false, features = ["sync", "macros", "rt"] }
