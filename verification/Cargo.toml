[package]
name = "tlsn_hash"
version = "0.1.0"
edition = "2021"
publish = false

[dependencies]
sha2 = "0.10"
blake2 = "0.10"
blake3 = "1"
tiny-keccak = { version = "2", features = ["keccak"] }
rand = "0.9"
serde = { version = "1", features = ["derive"] }
thiserror = "2"
rs_merkle = "1"
opaque-debug = "0.3"
