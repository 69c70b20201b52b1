[package]
name = "actor_messaging"
version = "0.1.0"
edition = "2021"
publish = false

[dependencies]
tokio = { version = "1", features = ["sync", "net", "rt", "macros"] }
tokio-util = "0.7"
borsh = "1"
async-trait = "0.1"
derive_more = "0.99"
