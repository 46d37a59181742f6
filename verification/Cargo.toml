[package]
name = "s3_filesystem"
version = "0.1.0"
edition = "2021"
publish = false

[dependencies]
aws-config = "*"
aws-sdk-s3 = "*"
aws-smithy-runtime-api = "*"
tokio = { version = "*", features = ["fs", "io-util"] }
