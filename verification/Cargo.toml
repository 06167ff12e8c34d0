[package]
name = "openai_proxy"
version = "0.1.0"
edition = "2021"
publish = false

[dependencies]
libflate = "1"
axum = "0.6"
hyper = { version = "0.14", features = ["full"] }
hyper-proxy = { version = "0.9", default-features = false, features = ["rustls"] }
hyper-rustls = "0.23"
tokio = { version = "1", features = ["full"] }
tracing = "0.1"
tracing-subscriber = { version = "0.3", features = ["env-filter"] }
