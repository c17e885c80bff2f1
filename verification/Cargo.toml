[package]
name = "sqs_forwarder"
version = "0.1.0"
edition = "2021"
publish = false

[dependencies]
anyhow = "*"
aws-config = "*"
aws-sdk-sqs = "*"
tokio = { version = "*", features = ["macros", "rt-multi-thread", "time"] }
