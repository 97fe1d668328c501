[package]
name = "umsebenzi"
version = "0.1.0"
edition = "2021"
publish = false

[dependencies]
reqwest = { version = "*", default-features = false, features = ["blocking", "json"] }
url = "*"
clap = { version = "*", features = ["derive"] }
cli-table = "*"
colored = "*"
serde = { version = "*", features = ["derive"] }
toml = "*"
