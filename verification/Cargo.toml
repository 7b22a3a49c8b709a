[package]
name = "rustbasic_jwt"
version = "0.1.0"
edition = "2021"
publish = false

[dependencies]
jsonwebtoken = "=9.3.1"
serde = { version = "=1.0.229", features = ["derive"] }
serde_json = { version = "=1.0.154", features = ["raw_value"] }
chrono = "=0.4.45"
uuid = { version = "=1.29.0", features = ["v4"] }
sea-orm = { version = "=1.1.20", default-features = false, features = ["macros"] }
rustbasic-core = "*"
