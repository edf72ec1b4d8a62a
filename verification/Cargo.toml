[package]
name = "eventlog"
version = "0.1.0"
edition = "2021"
publish = false

[dependencies]
axum = "*"
async-std = "*"
clap = { version = "*", features = ["derive"] }
log = "*"
serde = { version = "*", features = ["derive"] }
serde_json = "*"
simple_logger = "*"
tokio = { version = "*", features = ["macros", "rt-multi-thread", "net", "time"] }
