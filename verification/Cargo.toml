[package]
name = "kasa_cloud"
version = "0.1.0"
edition = "2021"
publish = false

[dependencies]
serde_json = "*"
serde = { version = "*", features = ["derive"] }
toml = "*"
clap = "*"
reqwest = { version = "*", default-features = false }
tokio = { version = "*", features = ["macros", "rt"] }
