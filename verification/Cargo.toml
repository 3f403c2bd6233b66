[package]
name = "checkpoint_committer"
version = "0.1.0"
edition = "2021"
publish = false

[dependencies]
tokio = { version = "1", features = ["sync"] }
futures = "0.3"
async-trait = "0.1"
tracing = "0.1"
