[package]
name = "faucet_core"
version = "0.1.0"
edition = "2021"
publish = false

[dependencies]
miden-lib = "=0.3.1"
miden-objects = { version = "=0.3.1", features = ["testing"] }
miden-tx = "=0.3.1"
rand = "=0.8.8"
rand_chacha = "=0.3.1"
tokio = { version = "1", features = ["rt-multi-thread", "macros"] }
tonic = "=0.11.0"
miden-node-proto = "=0.4.0"
rusqlite = { version = "=0.30.0", features = ["bundled"] }
protox = "=0.6.1"
tonic-build = "=0.11.0"
