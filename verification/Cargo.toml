[package]
name = "libsql_bridge"
version = "0.1.0"
edition = "2021"
publish = false

[dependencies]
libsql = "*"
serde = { version = "*", features = ["derive"] }
tokio = { version = "*", features = ["rt"] }
uuid = { version = "*", features = ["v4"] }
