[package]
name = "heat_exchanger"
version = "0.1.0"
edition = "2021"
publish = false

[dependencies]
bollard = { version = "*", features = ["ssl"] }
env_logger = "*"
humantime-serde = "*"
log = "*"
reqwest = { version = "*", default-features = false }
serde = { version = "*", features = ["derive"] }
serde_json = "*"
serde_yaml = "*"
tokio = { version = "*", features = ["macros", "rt-multi-thread", "time"] }
