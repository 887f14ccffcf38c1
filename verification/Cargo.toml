[package]
name = "cargo_restore"
version = "0.1.0"
edition = "2021"
rust-version = "1.95"
publish = false

[dependencies]
anstyle = "=1.0.14"
anyhow = "=1.0.104"
cargo = "=0.96.0"
cargo-credential-libsecret = "=0.5.6"
cargo-util = "=0.2.28"
clap = { version = "=4.6.7", features = ["derive"] }
kstring = "=2.0.2"
semver = "=1.0.28"
serde = { version = "=1.0.229", features = ["derive"] }
serde_json = "=1.0.151"
yoke = "=0.8.3"
