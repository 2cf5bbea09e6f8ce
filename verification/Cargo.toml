[package]
name = "render_pipeline"
version = "0.1.0"
edition = "2021"
publish = false

[dependencies]
papermake = "=0.3.0"
serde = { version = "=1.0.229", features = ["derive"] }
serde_json = "=1.0.151"
tokio = { version = "=1.53.2", features = ["macros", "rt-multi-thread", "sync", "time"] }
uuid = { version = "=1.27.0", features = ["v4"] }
aws-config = { version = "*", default-features = false }
aws-sdk-s3 = { version = "*", default-features = false }
