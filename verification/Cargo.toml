[package]
name = "qrmi"
version = "0.1.0"
edition = "2021"
publish = false

[dependencies]
serde_json = "1"
uuid = { version = "1", features = ["v4"] }
serde = { version = "1", features = ["derive"] }
anyhow = "1"
log = "0.4"
tokio = { version = "1", features = ["rt-multi-thread", "macros", "time"] }
async-trait = "0.1"
reqwest = { version = "0.12", default-features = false, features = ["json", "rustls-tls"] }
reqwest-middleware = "0.4"
retry-policies = "0.4"
http = "1"
aws-sdk-s3 = "*"
aws-credential-types = "*"
ffi_helpers = "*"
pyo3 = "*"
