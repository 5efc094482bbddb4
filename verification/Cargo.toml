[package]
name = "pleiades_worker"
version = "0.1.0"
edition = "2021"
publish = false

[dependencies]
bytes = "1"
cpu-time = "1"
tokio = { version = "1", features = ["rt-multi-thread", "sync", "time", "macros", "signal"] }
reqwest = { version = "0.12", default-features = false }
serde = { version = "1", features = ["derive"] }
serde_yaml = "0.9"
duration-str = "0.11"
libc = "0.2"
affinity = "0.1"
core_affinity = "0.8"
sysinfo = "0.33"
chrono = "0.4"
anyhow = "1"
tracing = "0.1"
