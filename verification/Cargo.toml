[package]
name = "hop"
version = "0.1.0"
edition = "2021"
publish = false

[dependencies]
bs58 = "=0.5.1"
postcard = { version = "=1.1.3", features = ["use-std"] }
thiserror = "=2.0.21"
uniffi = { version = "=0.32.2", features = ["cli"] }
