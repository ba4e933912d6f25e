[package]
name = "rrpc"
version = "0.1.0"
edition = "2021"
publish = false

[dependencies]
serde = { version = "*", features = ["derive"] }
serde_json = "*"
tonic = "*"
tower = "*"
axum = "*"
bytes = "*"
futures-core = "*"
tokio = { version = "*", features = ["macros", "rt-multi-thread", "signal"] }
anyhow = "*"
