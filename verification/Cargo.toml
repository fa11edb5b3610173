[package]
name = "fibonacci_server"
version = "0.1.0"
edition = "2021"
publish = false

[dependencies]
actix-web = "4"
actix-web-opentelemetry = "0.19"
opentelemetry = "0.24"
opentelemetry-otlp = { version = "0.17", features = ["tls", "tls-roots"] }
opentelemetry_sdk = { version = "0.24", features = ["rt-tokio"] }
serde = { version = "1", features = ["derive"] }
tonic = { version = "0.12", features = ["tls"] }

[dev-dependencies]
serde_json = "1"
