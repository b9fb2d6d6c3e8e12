[package]
name = "eth"
version = "0.1.0"
edition = "2021"
publish = false

[dependencies]
chrono = "=0.4.45"
serde = { version = "=1.0.229", features = ["derive"] }
serde_json = "=1.0.151"
sysinfo = "=0.39.6"
whoami = "=2.1.3"
envmnt = "=0.10.4"
