[package]
name = "reth_core"
version = "0.1.0"
edition = "2021"
publish = false

[dependencies]
alloy-primitives = "*"
alloy-rlp = "*"
alloy-trie = "*"
nybbles = "*"
thiserror = "*"
