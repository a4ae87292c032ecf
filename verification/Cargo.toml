[package]
name = "kopiur-controller"
version = "0.1.0"
edition = "2021"
publish = false

[dependencies]
chrono = "0.4"
k8s-openapi = { version = "*", features = ["latest"] }
kube = { version = "*", default-features = false, features = ["client", "runtime"] }
serde = { version = "1", features = ["derive"] }
serde_json = "1"
tracing = "0.1"
