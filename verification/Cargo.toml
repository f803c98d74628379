[package]
name = "signal_relay"
version = "0.1.0"
edition = "2021"
publish = false

[dependencies]
aws-config = "*"
aws_lambda_events = { version = "*", default-features = false, features = ["apigw"] }
aws-sdk-apigatewaymanagement = "*"
aws-sdk-dynamodb = "*"
chrono = "*"
env_logger = "*"
lambda_runtime = "*"
log = "*"
serde = { version = "*", features = ["derive"] }
serde_json = "*"
tokio = { version = "*", features = ["macros", "rt"] }
