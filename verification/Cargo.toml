[package]
name = "hmy_web3"
version = "0.1.0"
edition = "2021"
publish = false

[dependencies]
tokio = { version = "*", features = ["time", "rt", "macros"] }
futures = "*"
futures-timer = "*"
async-trait = "*"
serde = { version = "*", features = ["derive"] }
serde_json = "*"
thiserror = "*"
log = "*"
bitcoincore-rpc = "*"
fixed-hash = "*"
