[package]
name = "xor_gadget"
version = "0.1.0"
edition = "2021"
publish = false

[dependencies]
halo2 = "*"
halo2_proofs = "*"
pasta_curves = "*"
