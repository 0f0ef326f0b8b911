[package]
name = "vbench"
version = "0.1.0"
edition = "2021"
publish = false

[dependencies]
anyhow = "=1.0.104"
arrow = { version = "=60.1.0", default-features = false }
async-trait = "=0.1.92"
bytes = "=1.12.1"
chrono = { version = "=0.4.45", default-features = false, features = ["clock", "std"] }
clap = { version = "=4.6.7", features = ["derive"] }
dirs = "=5.0.1"
futures = "=0.3.34"
hdrhistogram = { version = "=7.6.0", default-features = false }
hostname = "=0.4.2"
parquet = { version = "=60.1.0", default-features = false, features = ["arrow", "snap"] }
reqwest = { version = "=0.12.28", default-features = false, features = ["stream", "rustls-tls"] }
rmp-serde = "=1.3.1"
rmpv = { version = "=1.3.1", features = ["with-serde"] }
serde = { version = "=1.0.229", features = ["derive"] }
serde_json = "=1.0.154"
sysinfo = { version = "=0.33.1", default-features = false, features = ["system"] }
tempfile = "=3.27.0"
thiserror = "=1.0.69"
tokio = { version = "=1.54.1", features = ["full"] }
tracing = "=0.1.44"
tracing-subscriber = { version = "=0.3.23", features = ["env-filter"] }
uuid = { version = "=1.29.0", features = ["v4"] }
which = "=6.0.3"
