[package]
name = "backed_cli"
version = "0.1.0"
edition = "2021"
publish = false

[dependencies]
ethers = { version = "2.0.14", default-features = false, features = ["abigen"] }
anyhow = "1"
clap = { version = "4", features = ["derive", "env"] }
serde = { version = "1", features = ["derive"] }
serde_json = "1"
tokio = { version = "1", features = ["macros", "rt-multi-thread"] }
k256 = "0.13"
