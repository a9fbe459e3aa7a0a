[package]
name = "promisqs"
version = "0.2.0"
edition = "2021"
publish = false

[dependencies]
shared_memory = "0.12"
thiserror = "1"
zerocopy = { version = "0.8", features = ["derive"] }
