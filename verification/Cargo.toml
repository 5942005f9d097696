[package]
name = "block_indexer"
version = "0.1.0"
edition = "2021"
publish = false

[dependencies]
itertools = "=0.13.0"
fake = "=2.10.0"
anyhow = "=1.0.104"
chrono = "=0.4.45"
serde = { version = "=1.0.229", features = ["derive"] }
serde_json = "=1.0.154"
thiserror = "=1.0.69"
tokio = { version = "=1.54.1", features = ["macros", "rt-multi-thread", "time"] }
axum = "=0.7.9"
clap = { version = "=4.6.7", features = ["derive", "env"] }
tracing = "=0.1.44"
futures = "=0.3.34"
validator = { version = "=0.18.1", features = ["derive"] }
diesel = { version = "=2.3.14", features = ["postgres", "chrono"] }
deadpool-diesel = { version = "=0.6.1", features = ["postgres"] }
reqwest = { version = "=0.12.28", features = ["cookies"] }
tendermint-rpc = { version = "=0.41.0", default-features = false, features = ["http-client"] }
