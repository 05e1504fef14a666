[package]
name = "thingy_program"
version = "0.1.0"
edition = "2021"
publish = false

[dependencies]
solana-program = "=2.0.25"
mpl-utils = "=0.4.0"

[dev-dependencies]
borsh = "=1.8.1"
rkyv = "=0.7.46"
