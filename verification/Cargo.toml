[package]
name = "cluster-manager"
version = "0.1.0"
edition = "2021"
publish = false

[dependencies]
futures = "*"
k8s-openapi = { version = "*", features = ["latest"] }
kube = "*"
kube-runtime = "*"
serde_json = "*"
tempfile = "*"
tokio = { version = "*", features = ["macros", "rt-multi-thread"] }
