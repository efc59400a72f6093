[package]
name = "tracing_surreal"
version = "0.1.0"
edition = "2021"
publish = false

[dependencies]
chrono = { version = "=0.4.45", features = ["serde"] }
derive_more = { version = "=2.1.1", features = ["display"] }
either = { version = "=1.19.0", features = ["serde"] }
est = { version = "=0.10.1", features = ["result", "serde", "task", "thread"] }
futures = "=0.3.34"
indexmap = { version = "=2.14.2", features = ["serde"] }
mac_address = "=1.2.1"
ron = "=0.12.2"
serde = { version = "=1.0.229", features = ["derive"] }
serde_json = "=1.0.154"
serde_qs = "=1.1.3"
serde_with = "=3.24.0"
sysinfo = "=0.33.1"
thiserror = "=2.0.21"
tokio = { version = "=1.54.1", features = ["full"] }
tokio-tungstenite = "=0.30.0"
tokio-util = { version = "=0.7.20", features = ["rt", "time"] }
tracing = "=0.1.44"
tracing-core = "=0.1.36"
tracing-subscriber = "=0.3.23"
trait-variant = "=0.1.3"
ulid = "=1.2.1"
wgpu = { version = "=22.1.0", default-features = false, features = ["serde"] }
