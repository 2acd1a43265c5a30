[package]
name = "exposed_app_operator"
version = "0.1.0"
edition = "2021"
publish = false

[dependencies]
time = { version = "0.3", features = ["formatting", "parsing"] }
rand = "0.9"
base64 = "0.22"
serde = { version = "1", features = ["derive"] }
serde_json = "1"
tokio = { version = "1", features = ["full"] }
tokio-util = { version = "0.7", features = ["time"] }
futures = "0.3"
async-stream = "0.3"
reqwest = "0.12"
tracing = "0.1"
tracing-subscriber = "0.3"
axum = "0.8"
actix-web = { version = "4", features = ["openssl"] }
openssl = "0.10"
kube = { version = "1", features = ["runtime", "derive"] }
k8s-openapi = { version = "0.25", features = ["latest"] }
schemars = "0.8"
