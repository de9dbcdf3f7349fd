[package]
name = "block-verification-stage"
version = "0.1.0"
edition = "2021"
publish = false

[dependencies]
agave-scheduler-bindings = "=3.1.14"
agave-transaction-view = "=3.1.14"
bytes = "=1.12.1"
crossbeam-channel = "=0.5.17"
rts-alloc = "=5.1.0"
solana-clock = "=4.0.0"
solana-hash = "=4.7.0"
