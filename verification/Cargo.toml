[package]
name = "eap"
version = "0.1.0"
edition = "2021"
publish = false

[dependencies]
serde_json = "1"
base64 = "0.22"
dotenvy = "0.15"
thiserror = "*"
syn = { version = "2", features = ["full"] }
quote = "1"
proc-macro2 = "1"
aws-sdk-ssm = { version = "*", default-features = false }
aws-sdk-secretsmanager = { version = "*", default-features = false }
