[package]
name = "attested_transport"
version = "0.1.0"
edition = "2021"
publish = false

[dependencies]
anyhow = "1"
mbedtls = "*"
parsec-client = "*"
serde = { version = "1", features = ["derive"] }
