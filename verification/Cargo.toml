[package]
name = "flashloan"
version = "0.1.0"
edition = "2021"
publish = false

[dependencies]
pinocchio = "*"
pinocchio-token = "*"
pinocchio-system = "*"
pinocchio-associated-token-account = "*"
pinocchio-pubkey = "*"
pinocchio-log = "*"
thiserror = "*"
