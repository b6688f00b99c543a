[package]
name = "steward_harness"
version = "0.1.0"
edition = "2021"
publish = false

[dependencies]
axum = "=0.8.9"
k8s-openapi = { version = "=0.26.1", features = ["latest"] }
kube = { version = "=2.0.1", default-features = false, features = ["client", "rustls-tls", "ring"] }
serde_json = "=1.0.154"
sha2 = "=0.10.9"
sqlx = { version = "=0.8.6", default-features = false, features = ["json", "migrate", "postgres", "runtime-tokio", "tls-rustls-ring-webpki", "uuid"] }
tokio = { version = "=1.54.1", features = ["io-util", "macros", "net", "rt-multi-thread", "sync", "time"] }
tokio-rustls = { version = "=0.26.6", default-features = false, features = ["ring", "tls12"] }
uuid = { version = "=1.29.0", features = ["v4"] }
