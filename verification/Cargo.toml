[package]
name = "event_harness"
version = "0.1.0"
edition = "2021"
publish = false

[dependencies]
serde = { version = "1", features = ["derive"] }
serde_json = "1"
thiserror = "1"
async-trait = "0.1"
tokio = { version = "1", features = ["macros", "rt-multi-thread", "sync", "time"] }
tracing = { version = "0.1", features = ["log"] }
tracing-subscriber = { version = "0.3", features = ["env-filter", "fmt"] }
aws-config = "1"
aws-sdk-dynamodb = "1"
aws-sdk-sqs = "1"
aws_lambda_events = "*"
lambda_runtime = "*"
lambda_http = "*"
