[package]
name = "masterror"
version = "0.1.0"
edition = "2021"
publish = false

[dependencies]
http = "=1.5.0"
serde = { version = "=1.0.229", features = ["derive"] }
sha2 = "=0.10.9"
sqlx-core = { version = "=0.8.6", default-features = false, features = ["migrate"] }
reqwest = { version = "=0.12.28", default-features = false }
redis = { version = "=1.8.1", default-features = false }
serde_json = "=1.0.154"
tokio = { version = "=1.54.1", default-features = false, features = ["time"] }
config = { version = "0.15", default-features = false }
