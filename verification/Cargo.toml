[package]
name = "coordinator"
version = "0.1.0"
edition = "2021"
publish = false

[dependencies]
clap = "2"
jsonrpc-core = "10"
jsonrpc-derive = "10"
jsonrpc-tcp-server = "10"
multihash = "0.8"
r2d2 = "0.8"
r2d2_postgres = "0.18"
serde = "1"
serde_derive = "1"
serde_yaml = "0.8"
