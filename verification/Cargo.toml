[package]
name = "keystr"
version = "0.1.0"
edition = "2021"
publish = false

[dependencies]
nostr = "0.21"
nostr-sdk = "0.21"
tokio = { version = "1", features = ["rt", "rt-multi-thread"] }
crossbeam = "0.8"
thiserror = "1.0"
serde_json = "1.0"
bip32 = "*"
bip39 = "*"
readonly = "*"
