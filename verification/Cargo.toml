[package]
name = "pow_chat"
version = "0.1.0"
edition = "2021"
publish = false

[dependencies]
sha2 = "*"
hex = "*"
serde = { version = "*", features = ["derive"] }
tokio = { version = "*", features = ["rt-multi-thread", "macros", "sync", "net"] }
axum = { version = "*", features = ["ws"] }
futures = "*"
