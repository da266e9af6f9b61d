[package]
name = "ibc_conn"
version = "0.1.0"
edition = "2021"
publish = false

[dependencies]
rlp = "=0.5.2"
tiny-keccak = { version = "=2.0.2", features = ["keccak"] }
