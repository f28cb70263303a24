[package]
name = "quantized_llm_service"
version = "0.1.0"
edition = "2021"
publish = false

[dependencies]
serde_json = "*"
tokenizers = "*"
tch = "*"
anyhow = "*"
axum = "*"
parking_lot = "*"
serde = { version = "*", features = ["derive"] }
thiserror = "*"
tokio = { version = "*", features = ["rt-multi-thread", "macros", "net"] }
tower-http = { version = "*", features = ["trace"] }
tracing = "*"
tracing-subscriber = { version = "*", features = ["env-filter", "fmt"] }
