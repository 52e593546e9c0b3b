[package]
name = "fvm"
version = "0.1.0"
edition = "2021"
publish = false

[dependencies]
fvm_shared = "*"
fvm_ipld_encoding = "*"
cid = "*"

[dev-dependencies]
blake2b_simd = "*"
