[package]
name = "queue_consumer"
version = "0.1.0"
edition = "2021"
publish = false

[dependencies]
aws-config = "*"
aws-sdk-sqs = "*"
ctrlc = "*"
tokio = { version = "*", features = ["macros", "rt-multi-thread"] }
