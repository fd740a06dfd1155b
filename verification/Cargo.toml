[package]
name = "fundraiser_pinocchio"
version = "0.1.0"
edition = "2021"
publish = false

[dependencies]
pinocchio = "0.8"
pinocchio-pubkey = "0.2"
pinocchio-system = "0.2"
pinocchio-token = "0.3"
