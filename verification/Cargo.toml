[package]
name = "nsearch"
version = "0.1.0"
edition = "2021"
publish = false

[dependencies]
anyhow = "1"
clap = { version = "4", features = ["derive", "env"] }
dotenvy = "0.15"
inquire = "*"
open = "*"
serde = { version = "1", features = ["derive"] }
toml = "*"
urlencoding = "2"
