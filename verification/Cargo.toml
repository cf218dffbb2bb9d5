[package]
name = "gitaware_fs"
version = "0.1.0"
edition = "2021"
publish = false

[dependencies]
globset = "=0.4.20"
ignore = "=0.4.33"
memmap2 = "=0.9.12"
regex = "=1.13.1"
rmcp = { version = "=3.7.0", features = ["server", "macros", "transport-io"] }
serde = { version = "=1.0.229", features = ["derive"] }
serde_json = "=1.0.154"
thiserror = "=2.0.21"
tokio = { version = "=1.54.1", features = ["macros", "rt-multi-thread", "io-std"] }
