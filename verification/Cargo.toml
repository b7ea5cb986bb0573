[package]
name = "adex_outpace"
version = "0.1.0"
edition = "2021"
publish = false

[dependencies]
parity-codec = "=2.1.5"
blake2-rfc = "=0.2.18"
ed25519-dalek = "=1.0.1"
