[package]
name = "mate"
version = "0.1.0"
edition = "2021"
publish = false

[dependencies]
anyhow = "=1.0.104"
async-trait = "=0.1.92"
bincode = "=1.3.3"
bson = "=2.15.0"
clap = { version = "=4.6.7", features = ["derive"] }
libc = "=0.2.191"
redis = { version = "=1.8.1", features = ["tokio-comp"] }
serde = { version = "=1.0.229", features = ["derive"] }
serde_json = "=1.0.154"
tempfile = "=3.27.0"
tokio = { version = "=1.54.1", features = ["full"] }
tracing = "=0.1.44"
tracing-subscriber = "=0.3.23"
wasmtime = { version = "=45.0.3", default-features = false, features = ["cranelift", "runtime"] }
