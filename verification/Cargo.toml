[package]
name = "shredlink_client"
version = "0.1.0"
edition = "2021"
publish = false

[dependencies]
anyhow = "1"
bs58 = "0.5"
futures = "0.3"
shredlink-proto = "*"
tokio = { version = "1", features = ["macros", "rt-multi-thread"] }
