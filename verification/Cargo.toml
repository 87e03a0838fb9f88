[package]
name = "boat3_server"
version = "0.1.0"
edition = "2021"
publish = false

[dependencies]
rppal = "*"
axum = "*"
tokio = { version = "*", features = ["macros", "rt-multi-thread", "net"] }
serde = { version = "*", features = ["derive"] }
serde_repr = "*"
