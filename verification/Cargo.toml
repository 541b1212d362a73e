[package]
name = "catalog_api"
version = "0.1.0"
edition = "2021"
publish = false

[dependencies]
aws-sdk-dynamodb = "=1.134.0"
opentelemetry_sdk = "=0.33.1"
rand = "=0.8.8"
rocket = { version = "=0.5.2", features = ["json"] }
serde = { version = "=1.0.229", features = ["derive"] }
serde_dynamo = { version = "=4.3.0", features = ["aws-sdk-dynamodb+1"] }
