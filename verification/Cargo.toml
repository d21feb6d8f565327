[package]
name = "cargo_android"
version = "0.1.0"
edition = "2021"
publish = false

[dependencies]
anyhow = "*"
cargo-subcommand = "*"
dunce = "*"
ndk-build = "*"
serde = { version = "*", features = ["derive"] }
toml = "*"
