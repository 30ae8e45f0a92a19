[package]
name = "staking_platform"
version = "0.1.0"
edition = "2021"
publish = false

[dependencies]
pinocchio = "0.9"
pinocchio-log = "*"
pinocchio-pubkey = "*"
pinocchio-system = "0.3"
pinocchio-token = "0.4"
shank = "*"
