[package]
name = "shared_kit"
version = "0.1.0"
edition = "2021"
publish = false

[dependencies]
globset = "0.4"
regex = "1"
url = "2"
path-clean = "*"
dirs = "*"
anyhow = "1"
clap = { version = "4", features = ["derive"] }
serde = { version = "1", features = ["derive"] }
toml = "*"
inquire = "*"
atty = "0.2"
indicatif = "*"
reqwest = { version = "*", default-features = false, features = ["blocking", "rustls-tls"] }
tempfile = "3"
zip = { version = "*", default-features = false, features = ["deflate"] }
