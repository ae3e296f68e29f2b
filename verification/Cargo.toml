[package]
name = "cargo_fmt"
version = "0.1.0"
edition = "2021"
publish = false

[dependencies]
structopt = "0.3"
cargo_metadata = "0.18"
