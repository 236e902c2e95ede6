[package]
name = "builder_api_client"
version = "0.1.0"
edition = "2021"
publish = false

[dependencies]
futures = "0.3"
tokio = { version = "0.2", default-features = false }
