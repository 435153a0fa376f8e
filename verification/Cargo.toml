[package]
name = "zk_benchmarks"
version = "0.1.0"
edition = "2021"
publish = false

[dependencies]
alloy-eips = { version = "1", default-features = false }
alloy-primitives = "1"
alloy-provider = { version = "1", default-features = false }
alloy-signer-local = { version = "1", default-features = false }
clap = { version = "4", features = ["derive", "env"] }
eyre = "0.6"
serde = { version = "1", features = ["derive"] }
serde_json = "1"
tokio = { version = "1", features = ["rt-multi-thread", "time", "signal"] }
url = "2"
