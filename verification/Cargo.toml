[package]
name = "core_providers"
version = "0.1.0"
edition = "2021"
publish = false

[dependencies]
lib-vmm = "*"
steamlocate = "*"
dirs = "*"
reqwest = "*"
serde = { version = "1", features = ["derive"] }
async-trait = "*"
