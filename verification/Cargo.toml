[package]
name = "aws_manager"
version = "0.1.0"
edition = "2021"
publish = false

[dependencies]
anyhow = "1"
chrono = { version = "0.4", features = ["serde"] }
clap = { version = "3", features = ["derive"] }
console = "0.15"
dialoguer = "0.10"
dirs = "4"
env_logger = "0.9"
futures = "0.3"
hyper = { version = "0.14", features = ["client", "http1", "tcp"] }
hyper-proxy = "0.9"
hyper-tls = "0.5"
log = "0.4"
regex = "1"
rusoto_core = "0.48"
rusoto_credential = "0.48"
rusoto_ecs = "0.48"
rusoto_sts = "0.48"
serde = { version = "1", features = ["derive"] }
serde_json = "1"
tokio = { version = "1", features = ["macros", "rt-multi-thread"] }
