[package]
name = "federation"
version = "0.1.0"
edition = "2021"
publish = false

[dependencies]
anyhow = "1"
async-trait = "0.1"
hlist = "*"
tokio = { version = "1", features = ["macros", "rt-multi-thread"] }
