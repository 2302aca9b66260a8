[package]
name = "kon"
version = "0.1.0"
edition = "2021"
publish = false

[dependencies]
bb8-redis = "=0.26.0"
cargo_toml = "=1.0.1"
dashmap = "=6.2.1"
futures = "=0.3.34"
poise = "=0.7.1"
reqwest = { version = "=0.12.28", default-features = false, features = ["json"] }
serde = { version = "=1.0.229", features = ["derive"] }
serde_json = "=1.0.154"
sysinfo = "*"
tokio = { version = "=1.54.1", features = ["macros", "rt-multi-thread", "signal", "sync", "time"] }
uptime_lib = "*"
