[package]
name = "kobe"
version = "0.1.0"
edition = "2021"
publish = false

[dependencies]
anyhow = "=1.0.104"
aws-config = { version = "=1.13.0", default-features = false, features = ["behavior-version-latest", "rt-tokio"] }
aws-sdk-s3 = { version = "=1.157.0", default-features = false, features = ["behavior-version-latest", "rt-tokio"] }
chrono = "=0.4.45"
hex = "=0.4.3"
k8s-openapi = { version = "=0.26.1", features = ["latest"] }
kube = { version = "=2.0.1", default-features = false, features = ["client", "derive", "jsonpatch"] }
schemars = "=1.2.3"
serde = { version = "=1.0.229", features = ["derive"] }
serde_json = "=1.0.154"
serde_yaml_ng = "=0.10.0"
sha2 = "=0.10.9"
thiserror = "=2.0.21"
tracing = "=0.1.44"
