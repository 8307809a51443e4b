[package]
name = "witness_oracle"
version = "0.1.0"
edition = "2021"
publish = false

[dependencies]
serde = { version = "1", features = ["derive"] }
zk_evm = "*"
