[package]
name = "sanity_rs"
version = "0.1.0"
edition = "2021"
publish = false

[dependencies]
bytes = "*"
http-body-util = "*"
hyper = { version = "*", features = ["client", "http1"] }
hyper-util = { version = "*", features = ["tokio"] }
reqwest = { version = "*", default-features = false }
serde = { version = "*", features = ["derive"] }
serde_json = "*"
thiserror = "*"
tokio = { version = "*", features = ["full"] }
