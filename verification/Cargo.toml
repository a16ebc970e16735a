[package]
name = "xactserver"
version = "0.1.0"
edition = "2021"
publish = false

[dependencies]
anyhow = "1"
bytes = "1"
log = "0.4"
prost = "0.13"
tokio = { version = "1", features = ["rt", "sync", "net"] }
tokio-postgres = "0.7"
tonic = "0.12"
