[package]
name = "dns_filter"
version = "0.1.0"
edition = "2021"
publish = false

[dependencies]
reqwest = { version = "0.11", default-features = false }
hyper = { version = "0.14", features = ["client"] }
trust-dns-resolver = "0.23"
pin-project-lite = "0.2"
