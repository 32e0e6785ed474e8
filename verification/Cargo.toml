[package]
name = "datafusion_fuzzer"
version = "0.1.0"
edition = "2021"
publish = false

[dependencies]
rand = "=0.9.5"
regex = "=1.13.1"
serde = { version = "1", features = ["derive"] }
toml = "*"
