[package]
name = "mosh-client"
version = "0.1.0"
edition = "2021"
publish = false

[dependencies]
anyhow = "1"
clap = { version = "4", features = ["derive"] }
crossterm = "0.28"
env_logger = "0.11"
log = "0.4"
tokio = { version = "1", features = ["macros", "net", "rt-multi-thread", "time"] }
