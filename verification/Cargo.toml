[package]
name = "powerline_prompt"
version = "0.1.0"
edition = "2021"
publish = false

[dependencies]
chrono = { version = "0.4", default-features = false, features = ["clock"] }
colored = "2"
dirs = "*"
git2 = { version = "*", default-features = false }
itertools = "*"

[dev-dependencies]
tempfile = "3"
