[package]
name = "kinesis_log_forwarder"
version = "0.1.0"
edition = "2021"
publish = false

[dependencies]
aws-config = "*"
aws-sdk-kinesis = "*"
lambda-extension = "*"
tokio = { version = "*", features = ["macros", "rt-multi-thread"] }
