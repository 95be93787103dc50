[package]
name = "zero_copy_ipc"
version = "0.1.0"
edition = "2021"
publish = false

[dependencies]
anyhow = "1"
interprocess = "1"
log = "0.4"
reqwest = { version = "0.11", default-features = false, features = ["blocking"] }
shared_memory = "0.12"
