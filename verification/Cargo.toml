[package]
name = "aws_lambda"
version = "0.1.0"
edition = "2021"
publish = false

[dependencies]
backtrace-parser = "=0.1.0"
heck = "=0.5.0"
codegen = "=0.3.0"
failure = "=0.1.8"
serde = "=1.0.229"
serde_json = "=1.0.151"
http = "=1.5.0"
