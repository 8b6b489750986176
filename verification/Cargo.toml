[package]
name = "icp_eth_coprocessor"
version = "0.1.0"
edition = "2021"
publish = false

[dependencies]
candid = "0.10"
ethers-core = "2.0"
hex = "0.4"
ic-cdk = "0.13"
ic-cdk-timers = "0.7"
ic-stable-structures = "0.6"
serde = { version = "1", features = ["derive"] }
serde_bytes = "0.11"
