[package]
name = "ingest_pipeline"
version = "0.1.0"
edition = "2021"
publish = false

[dependencies]
aws-config = { version = "=1.12.0", features = ["behavior-version-latest"] }
aws-sdk-s3 = "=1.152.0"
aws-sdk-sfn = "=1.120.0"
aws-sdk-ssm = "=1.128.0"
aws-types = "~1.6"
aws_lambda_events = { version = "=1.2.1", default-features = false, features = ["s3"] }
lambda_runtime = "=1.5.0"
rand = "=0.8.8"
serde = { version = "=1.0.229", features = ["derive"] }
serde_json = "=1.0.154"
tokio = { version = "=1.54.1", features = ["macros", "rt-multi-thread"] }
tracing = "=0.1.44"
tracing-subscriber = { version = "=0.3.23", features = ["fmt"] }
zip = "=9.1.0"
