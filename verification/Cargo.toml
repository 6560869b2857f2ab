[package]
name = "fzweb"
version = "0.1.0"
edition = "2021"
publish = false

[dependencies]
clap = "4"
dirs = "*"
open = "*"
serde = { version = "1", features = ["derive"] }
serde_json = "1"
skim = "*"
