[package]
name = "markdown_checker"
version = "0.1.0"
edition = "2021"

[dependencies]
clap = { version = "4", features = ["derive"] }
glob = "0.3"
