[package]
name = "simply_dns_client"
version = "0.1.0"
edition = "2021"
publish = false

[dependencies]
serde_json = "*"
thiserror = "*"
reqwest = { version = "*", default-features = false }
