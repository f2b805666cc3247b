[package]
name = "ttl_cache"
version = "0.1.0"
edition = "2021"
publish = false

[dependencies]
dashmap = "*"
actix-web = "*"
tokio = { version = "*", features = ["macros", "rt-multi-thread", "time"] }
serde = { version = "*", features = ["derive"] }
base64 = "*"
