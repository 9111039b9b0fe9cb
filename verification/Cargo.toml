[package]
name = "taint-controller"
version = "0.1.0"
edition = "2021"
publish = false

[dependencies]
config = { version = "=0.15.27", default-features = false, features = ["yaml"] }
k8s-openapi = { version = "=0.27.1", features = ["latest"] }
kube = { version = "=3.1.0", features = ["runtime"] }
log = "=0.4.34"
serde = { version = "=1.0.229", features = ["derive"] }
structured-logger = "=1.0.5"
tokio = { version = "=1.54.1", features = ["macros", "rt-multi-thread", "time"] }
tokio-stream = "=0.1.19"
