[package]
name = "heritage_cli"
version = "0.1.0"
edition = "2021"
publish = false

[dependencies]
bitcoin = "*"
chrono = "0.4"
clap = { version = "4", features = ["derive", "env"] }
dirs-next = "2"
env_logger = "0.11"
log = "0.4"
open = "5"
rpassword = "7"
serde = { version = "1", features = ["derive"] }
serde_json = "1"
tokio = { version = "1", features = ["rt-multi-thread", "macros"] }
