[package]
name = "madsim"
version = "0.1.0"
edition = "2021"
publish = false

[dependencies]
async-stream = "0.3"
async-task = "4"
futures-core = "0.3"
futures-util = "0.3"
serde = { version = "1", features = ["derive"] }
spin = "0.9"
tokio = { version = "1", features = ["macros", "rt-multi-thread", "sync", "time"] }
tonic = "0.9"
tracing = "0.1"
