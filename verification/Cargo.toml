[package]
name = "sx_provider"
version = "0.1.0"
edition = "2021"
publish = false

[dependencies]
async-once-cell = "0.5"
chrono = "0.4"
clap = { version = "4", features = ["derive"] }
env_logger = "0.11"
log = "0.4"
once_cell = "1"
prost = "0.13"
serde_json = "1"
tokio = { version = "1", features = ["macros", "rt-multi-thread", "sync", "time"] }
