[package]
name = "rollup_client"
version = "0.1.0"
edition = "2021"
publish = false

[dependencies]
op-alloy-consensus = "*"
alloy-rlp = "*"
alloy-primitives = "*"
