[package]
name = "doh_responder"
version = "0.1.0"
edition = "2021"
publish = false

[dependencies]
anyhow = "=1.0.104"
aws-config = "=0.54.1"
aws-sdk-lambda = "=0.24.0"
aws-sdk-s3 = "=0.24.0"
base64-url = "=4.0.1"
lambda_http = "=0.8.4"
lambda_runtime = "=0.8.3"
reqwest = { version = "=0.11.27", default-features = false, features = ["json", "rustls-tls"] }
serde = { version = "=1.0.229", features = ["derive"] }
serde_json = "=1.0.154"
tokio = { version = "=1.54.1", features = ["macros", "rt-multi-thread"] }
trust-dns-proto = "=0.21.2"
trust-dns-resolver = "=0.21.2"
url = "=2.5.8"
zip = { version = "=0.6.6", default-features = false, features = ["deflate", "time"] }

[dev-dependencies]
regex = "=1.13.1"
