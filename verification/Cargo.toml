[package]
name = "unity_catalog"
version = "0.1.0"
edition = "2021"
publish = false

[dependencies]
polars = { version = "*", features = ["parquet"], default-features = false }
reqwest = { version = "*", features = ["json", "rustls-tls"], default-features = false }
tokio = { version = "*", features = ["macros", "rt-multi-thread"] }
serde = { version = "*", features = ["derive"] }
serde_json = "*"
futures = "*"
bytes = "*"
magic-crypt = "*"
