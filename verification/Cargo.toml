[package]
name = "khonsu_tools"
version = "0.1.0"
edition = "2021"
publish = false

[dependencies]
anyhow = "1"
badge = "*"
clap = { version = "3", features = ["derive"] }
devx-cmd = "*"
devx-pre-commit = "*"
rustme = "*"
serde_json = "1"
