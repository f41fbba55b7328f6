[package]
name = "fee_transfer_proof"
version = "0.1.0"
edition = "2021"
publish = false

[dependencies]
curve25519-dalek-ng = "=4.1.1"
bulletproofs = "=4.0.0"
merlin = "=3.0.0"
subtle = "=2.6.1"
rand = "=0.8.8"
