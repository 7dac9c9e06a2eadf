[package]
name = "sqlrepo"
version = "0.1.0"
edition = "2021"
publish = false

[dependencies]
uuid = { version = "=1.29.0", features = ["v4", "serde"] }
serde_json = "=1.0.154"
secrecy = { version = "=0.8.0", features = ["serde"] }
rand = "=0.8.8"
serde = { version = "=1.0.229", features = ["derive"] }
thiserror = "=1.0.69"
anyhow = "=1.0.104"
async-trait = "=0.1.92"
tokio = { version = "=1.54.1", features = ["macros", "rt-multi-thread"] }
tracing = "=0.1.44"
tracing-subscriber = { version = "=0.3.23", features = ["env-filter", "json"] }
config = "=0.15.27"
aws-config = { version = "=1.12.0", features = ["behavior-version-latest"] }
aws-types = "=1.6.0"
aws-sdk-rdsdata = "=1.117.0"
aws-sdk-rds = "=1.154.0"
aws-sdk-s3 = "=1.152.0"
lambda_http = "=1.3.2"
