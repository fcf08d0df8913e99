[package]
name = "pulse"
version = "0.1.0"
edition = "2021"
publish = false

[dependencies]
duration-str = "=0.21.0"
env_logger = "=0.11.11"
figment = { version = "=0.10.19", features = ["toml", "env"] }
log = "=0.4.34"
once_cell = "=1.21.4"
opentelemetry = "=0.27.1"
opentelemetry-appender-log = "=0.27.0"
opentelemetry-otlp = { version = "=0.27.0", default-features = false, features = ["grpc-tonic", "http-proto", "reqwest-client", "logs", "trace", "metrics"] }
opentelemetry-semantic-conventions = "=0.27.0"
opentelemetry_sdk = { version = "=0.27.1", features = ["rt-tokio", "logs", "trace", "metrics"] }
serde = { version = "=1.0.229", features = ["derive"] }
serde_json = "=1.0.154"
thiserror = "=1.0.69"
tokio = { version = "=1.54.1", features = ["rt-multi-thread", "time"] }
tracing = "=0.1.44"
tracing-attributes = "=0.1.31"
tracing-opentelemetry = { version = "=0.28.0", features = ["metrics", "metrics_gauge_unstable"] }
tracing-subscriber = { version = "=0.3.23", default-features = false, features = ["registry", "std"] }
url = "=2.5.8"
