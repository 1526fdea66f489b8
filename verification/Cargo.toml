[package]
name = "linehaul"
version = "0.1.0"
edition = "2021"
publish = false

[dependencies]
aws_lambda_events = "0.2"
backoff = "=0.1.6"
base64 = "0.10"
chrono = { version = "=0.4.45", features = ["serde"] }
clap = "=2.34.0"
flate2 = "=1.1.10"
hyper = "=0.10.16"
hyper-native-tls = "=0.3.0"
lambda_runtime = "0.2"
regex = "=1.13.1"
rusoto_core = "0.42"
rusoto_s3 = "0.42"
serde = { version = "=1.0.229", features = ["derive"] }
serde_json = { version = "=1.0.154", features = ["raw_value"] }
slog = "=2.8.2"
slog-async = "=2.8.0"
slog-bunyan = "=2.5.0"
slog-envlogger = "=2.2.0"
slog-scope = "=4.4.1"
slog-term = "=2.9.2"
url = "=1.7.2"
uuid = { version = "=1.29.0", features = ["v4"] }
yup-oauth2 = "=1.0.12"
