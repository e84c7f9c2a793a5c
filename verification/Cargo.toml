[package]
name = "ssri_udt"
version = "0.1.0"
edition = "2021"
publish = false

[dependencies]
ckb-hash = { version = "=1.1.1", default-features = false, features = ["ckb-contract"] }
ckb-std = "=0.16.4"
ckb-ssri-std = "=0.0.1"

[dev-dependencies]
serde_molecule = "=1.1.2"
