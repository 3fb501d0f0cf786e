[package]
name = "serial_validator"
version = "0.1.0"
edition = "2021"
publish = false

[dependencies]
lambda_runtime = "*"
rusoto_core = { version = "*", default-features = false, features = ["rustls"] }
rusoto_dynamodb = { version = "*", default-features = false, features = ["rustls"] }
serde = "*"
serde_derive = "*"
tokio = { version = "*", features = ["macros", "rt"] }
