[package]
name = "refinery_rs"
version = "0.1.0"
edition = "2021"
publish = false

[dependencies]
semver = "1"
toml_edit = { version = "0.22", features = ["serde"] }
serde = { version = "1", features = ["derive"] }
serde_yaml = "0.9"
clap = { version = "4", features = ["derive"] }
anyhow = "1"
thiserror = "2"
inquire = "0.7"
owo-colors = "4"
indicatif = "0.17"
miette = "7"
tokio = { version = "1", features = ["macros", "rt-multi-thread", "fs", "process"] }
reqwest = { version = "0.12", default-features = false, features = ["json"] }
