[package]
name = "sharding"
version = "0.1.0"
edition = "2021"
publish = false

[dependencies]
near-primitives-core = "*"
reed-solomon-erasure = "*"
