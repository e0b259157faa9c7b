[package]
name = "sqs_replay"
version = "0.1.0"
edition = "2021"
publish = false

[dependencies]
regex = "*"
aws-config = "*"
aws-sdk-sqs = "*"
tokio = { version = "*", features = ["macros", "rt-multi-thread"] }
futures = "*"
async-trait = "*"
clap = "*"
termion = "*"
