[package]
name = "ssmync"
version = "0.1.0"
edition = "2021"
publish = false

[dependencies]
aws-config = "=1.13.0"
aws-sdk-ssm = "=1.131.0"
clap = { version = "=3.2.25", features = ["derive"] }
colored = "=2.2.0"
tokio = { version = "=1.54.1", features = ["macros", "rt-multi-thread"] }
