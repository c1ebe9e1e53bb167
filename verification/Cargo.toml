[package]
name = "ts_validator"
version = "0.1.0"
edition = "2021"
publish = false

[dependencies]
toml = "=0.8.23"
toml_schema = "=0.2.1"
semver = "=1.0.28"
serde = { version = "=1.0.229", features = ["derive"] }
clap = { version = "=4.6.7", features = ["derive"] }
clap_complete = "=4.6.11"
ovation = "=4.1.0"
patharg = "=0.4.1"
anyhow = "=1.0.104"
