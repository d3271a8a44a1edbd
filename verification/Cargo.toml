[package]
name = "state_updater"
version = "0.1.0"
edition = "2021"
publish = false

[dependencies]
alloy-primitives = "=1.7.3"
alloy-sol-types = "=1.7.3"
tiny-keccak = { version = "=2.0.2", features = ["keccak"] }
risc0-zkvm = { version = "=3.0.6", default-features = false, features = ["std"] }
