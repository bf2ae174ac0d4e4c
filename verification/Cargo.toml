[package]
name = "hor-core"
version = "0.1.0"
edition = "2021"
publish = false

[dependencies]
anyhow = "=1.0.104"
async-trait = "=0.1.92"
config = "=0.15.27"
derive_more = { version = "=2.1.1", features = ["from"] }
hyper = { version = "=0.14.32", features = ["full"] }
jsm = "=0.1.0"
octocrab = "=0.42.1"
serde = { version = "=1.0.229", features = ["derive"] }
serde_json = "=1.0.154"
shuttle-runtime = "=0.57.0"
shuttle-tower = "=0.57.0"
thiserror = "=1.0.69"
tokio = { version = "=1.54.1", features = ["rt", "macros"] }
tower = "=0.4.13"
tracing = "=0.1.44"
