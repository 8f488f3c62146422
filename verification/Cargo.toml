[package]
name = "darwinia_builder"
version = "0.1.0"
edition = "2021"
publish = false

[dependencies]
clap = "4"
colored = "2"
dirs = "5"
fs_extra = "1"
indicatif = "0.17"
os_info = "3"
reqwest = { version = "0.12", default-features = false, features = ["blocking"] }
toml = "0.8"
