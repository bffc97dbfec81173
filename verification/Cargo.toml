[package]
name = "webfetch"
version = "0.1.0"
edition = "2021"
publish = false

[dependencies]
base64 = "0.13"
hyper = { version = "0.14", features = ["client", "http1", "http2", "tcp"] }
hyper-tls = "0.5"
tokio = { version = "1", features = ["macros", "rt-multi-thread"] }
futures-util = "0.3"
lambda_runtime = "0.8"
serde = { version = "1", features = ["derive"] }
tracing = "0.1"
tracing-subscriber = { version = "0.3", features = ["env-filter", "json"] }
