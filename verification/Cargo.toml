[package]
name = "twinvpn-core"
version = "0.1.0"
edition = "2021"
publish = false

[dependencies]
futures-core = "0.3"
prost = "0.13"
thiserror = "2"
tracing = "0.1"
