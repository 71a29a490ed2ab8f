[package]
name = "erc8183"
version = "0.1.0"
edition = "2021"
publish = false

[dependencies]
alloy = { version = "1", default-features = false, features = ["std", "contract", "provider-http", "rpc-types"] }
serde = { version = "1", features = ["derive"] }
serde_json = "1"
thiserror = "2"
