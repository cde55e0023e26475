[package]
name = "vermilionrc"
version = "0.1.0"
edition = "2021"
publish = false

[dependencies]
nix = "0.26"
tokio = { version = "1", default-features = false, features = ["rt", "io-util", "net", "time"] }
clap = "4"
async-trait = "0.1"
