[package]
name = "code_intel"
version = "0.1.0"
edition = "2021"
publish = false

[dependencies]
syn = { version = "2", features = ["full", "visit"] }
proc-macro2 = { version = "1", features = ["span-locations"] }
serde = { version = "1", features = ["derive"] }
serde_json = "1"
tokio = { version = "1", features = ["rt-multi-thread", "macros", "fs", "sync", "io-std", "io-util"] }
walkdir = "2"
anyhow = "1"
schemars = "*"
rmcp = { version = "*", features = ["server", "transport-io", "macros"] }
