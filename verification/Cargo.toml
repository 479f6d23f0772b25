[package]
name = "singleton_consensus"
version = "0.1.0"
edition = "2021"
publish = false

[dependencies]
schnorrkel = "0.11"
blake2 = "0.10"
