[package]
name = "junowen"
version = "0.1.0"
edition = "2021"
publish = false

[dependencies]
base_custom = "*"
chrono = "0.4"
uuid = { version = "1", features = ["v4"] }
regex = "1"
serde = { version = "1", features = ["derive"] }
serde_json = "1"
anyhow = "1"
thiserror = "*"
clap = { version = "4", features = ["derive"] }
tokio = { version = "1", features = ["macros", "rt-multi-thread", "fs", "time", "sync"] }
tracing = "0.1"
tracing-subscriber = { version = "0.3", features = ["env-filter"] }
lambda_http = "*"
aws-config = "*"
aws-sdk-dynamodb = "*"
aws-sdk-cloudwatchlogs = "*"
aws-types = "*"
aws-credential-types = "*"
serde_dynamo = { version = "*", features = ["aws-sdk-dynamodb+1"] }
toml = "*"
toml_edit = "*"
rmp-serde = "*"
