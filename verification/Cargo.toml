[package]
name = "vrf_consumer"
version = "0.1.0"
edition = "2021"
publish = false

[dependencies]
solana-program = "=1.18.26"
switchboard-program = "=0.2.1"
switchboard-protos = "=0.1.60"
quick-protobuf = "=0.8.0"
