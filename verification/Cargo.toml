[package]
name = "ggr"
version = "0.1.0"
edition = "2021"
publish = false

[dependencies]
url = "*"
git2 = { version = "*", default-features = false }
curl = { version = "*", default-features = false }
clap = "*"
rustc-serialize = "*"
toml-config = "*"
