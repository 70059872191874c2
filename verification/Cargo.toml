[package]
name = "distributed_cicd"
version = "0.1.0"
edition = "2021"
publish = false

[dependencies]
reqwest = { version = "*", default-features = false, features = ["json"] }
serde = { version = "1", features = ["derive"] }
serde_json = "1"
tokio = { version = "1", features = ["full"] }
axum = "*"
prometheus = { version = "*", default-features = false }
lazy_static = "1"
clap = { version = "4", features = ["derive"] }
thiserror = "*"
etcd-client = "*"
futures = "0.3"
dagger-sdk = "*"
eyre = "*"
