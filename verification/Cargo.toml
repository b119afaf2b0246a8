[package]
name = "xrpl_data_api"
version = "0.1.0"
edition = "2021"
publish = false

[dependencies]
chrono = "0.4"
scylla = "0.13"
num-bigint = "0.4"
serde = { version = "1", features = ["derive"] }
axum = "0.7"
tokio = { version = "1", features = ["full"] }
