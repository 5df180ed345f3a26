[package]
name = "poseidon2"
version = "0.1.0"
edition = "2021"
publish = false

[dependencies]
ff = "*"
halo2_proofs = "*"
