[package]
name = "steam_tracker"
version = "0.1.0"
edition = "2021"
publish = false

[dependencies]
anyhow = "1"
async-trait = "0.1"
config = "*"
dotenv = "*"
opentelemetry = "*"
opentelemetry-appender-tracing = "*"
opentelemetry-otlp = { version = "*", features = ["grpc-tonic", "http-proto", "metrics", "logs"] }
opentelemetry-stdout = "*"
opentelemetry_sdk = "*"
reqwest = { version = "*", default-features = false, features = ["json"] }
serde = { version = "1", features = ["derive"] }
tokio = { version = "1", features = ["macros", "rt-multi-thread", "signal", "sync"] }
tokio-cron-scheduler = "*"
tracing = "0.1"
tracing-subscriber = { version = "*", features = ["env-filter"] }
url = "2"
