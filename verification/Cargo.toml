[package]
name = "arc_node"
version = "0.1.0"
edition = "2021"
publish = false

[dependencies]
alloy-consensus = "~2.0.5"
alloy-eips = "~2.0.5"
alloy-primitives = "1"
alloy-rpc-client = { version = "~2.0.5", default-features = false, features = ["reqwest"] }
alloy-rpc-types-eth = "~2.0.5"
alloy-transport = "~2.0.5"
jsonrpsee = { version = "0.26.1", features = ["server"] }
metrics = "0.24"
reqwest = { version = "0.13", default-features = false }
serde_json = { version = "1", features = ["raw_value"] }
tokio = { version = "1", features = ["macros", "rt", "sync", "time"] }
tower = "0.5"
tracing = "0.1"
