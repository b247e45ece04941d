[package]
name = "forge_executor"
version = "0.1.0"
edition = "2021"
publish = false

[dependencies]
bytes = "*"
ethers = { version = "=2.0.14", default-features = false }
