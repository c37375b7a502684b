[package]
name = "ray"
version = "0.1.0"
edition = "2021"
publish = false

[dependencies]
discv5 = "=0.12.0"
enr = { version = "=0.14.0", features = ["ed25519", "k256"] }
libp2p-identity = { version = "=0.3.0", features = ["ed25519", "peerid", "secp256k1"] }
lru = { version = "=0.18.5", default-features = false }
tiny-keccak = { version = "=2.0.2", features = ["keccak"] }
tokio = { version = "=1.53.2", features = ["rt-multi-thread", "time"] }
