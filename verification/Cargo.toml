[package]
name = "op_succinct"
version = "0.1.0"
edition = "2021"
publish = false

[dependencies]
alloy-consensus = { version = "=2.0.4", default-features = false, features = ["std", "serde"] }
alloy-eips = { version = "=2.0.4", default-features = false, features = ["std"] }
alloy-json-rpc = "=2.0.4"
alloy-primitives = "=1.5.7"
alloy-rlp = "=0.3.17"
alloy-sol-types = { version = "=1.5.7", default-features = false }
alloy-transport = "=2.0.4"
anyhow = "=1.0.104"
async-trait = "=0.1.92"
kona-preimage = { version = "=0.3.0", default-features = false }
kzg-rs = "=0.2.9"
serde = { version = "=1.0.229", features = ["derive"] }
serde_cbor = "=0.11.2"
serde_json = { version = "=1.0.154", features = ["raw_value"] }
tokio = { version = "=1.54.1", features = ["time", "rt", "macros", "sync"] }
tonic = { version = "=0.12.3", default-features = false }
tracing = "=0.1.44"
