[package]
name = "rpc_frame"
version = "0.1.0"
edition = "2021"
publish = false

[dependencies]
bincode = "1"
serde = "1"
quinn = "*"
