[package]
name = "dnslr"
version = "0.1.0"
edition = "2021"
publish = false

[dependencies]
arc-swap = "1"
async-trait = "0.1"
tracing = "0.1"
redis = { version = "0.21", features = ["tokio-comp", "connection-manager"] }
trust-dns-client = "0.22"
trust-dns-proto = "0.22"
trust-dns-resolver = "0.22"
trust-dns-server = "0.22"
