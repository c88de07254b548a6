[package]
name = "ecsr"
version = "0.1.0"
edition = "2021"
publish = false

[dependencies]
aws-config = "*"
aws-sdk-ecs = "*"
dialoguer = { version = "*", features = ["fuzzy-select"] }
dirs = "*"
tokio = { version = "*", features = ["macros", "rt-multi-thread"] }
