[package]
name = "query_db_invoke_agent"
version = "0.1.0"
edition = "2021"
publish = false

[dependencies]
regex = "1"
serde = { version = "1", features = ["derive"] }
lambda_runtime = "*"
tokio = { version = "1", features = ["macros", "rt-multi-thread"] }
tracing = "0.1"
tracing-subscriber = "0.3"
aws-config = { version = "1", default-features = false }
aws-sdk-dynamodb = { version = "1", default-features = false }
aws-sdk-bedrockruntime = { version = "1", default-features = false }
clap = { version = "4", features = ["derive"] }
anyhow = "1"
