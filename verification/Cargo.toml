[package]
name = "ri_utilization"
version = "0.1.0"
edition = "2021"
publish = false

[dependencies]
chrono = "=0.4.45"
env_logger = "0.6"
lambda_runtime = "0.2"
log = "0.4"
rusoto_ce = "0.42"
rusoto_cloudwatch = "0.42"
rusoto_core = "0.42"
serde = { version = "1", features = ["derive"] }
