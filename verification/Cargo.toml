[package]
name = "kadugu"
version = "0.1.0"
edition = "2021"
publish = false

[dependencies]
anyhow = "1"
async-compat = "0.2"
clap = "4"
futures = "0.3"
libp2p = { version = "0.53", features = ["tokio", "tcp", "noise", "yamux", "quic", "dns", "relay", "dcutr", "identify", "macros"] }
libp2p-stream = "0.1.0-alpha"
tokio = { version = "1", features = ["rt-multi-thread", "macros", "net", "io-util"] }
tracing = "0.1"
tracing-subscriber = { version = "0.3", features = ["env-filter"] }
