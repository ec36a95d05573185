[package]
name = "kubefs"
version = "0.1.0"
edition = "2021"
publish = false

[dependencies]
fuser = { version = "=0.5.0", default-features = false }
k8s-openapi = { version = "=0.27.1", features = ["latest"] }
kube = "=3.1.0"
libc = "=0.2.191"
tokio = { version = "=1.54.1", features = ["macros", "rt-multi-thread"] }
