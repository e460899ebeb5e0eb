[package]
name = "galileo_platform"
version = "0.1.0"
edition = "2021"
publish = false

[dependencies]
async-trait = "0.1"
bytes = "1"
log = "0.4"
reqwest = "0.12"
