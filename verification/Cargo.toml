[package]
name = "rand"
version = "0.1.0"
edition = "2021"
publish = false

[dependencies]
rand_core = "0.4"
ppv-lite86 = "0.2"
serde = { version = "1", features = ["derive"] }
