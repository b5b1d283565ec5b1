[package]
name = "path_matchers"
version = "1.0.0"
edition = "2021"
publish = false

[dependencies]
glob = "0.3"
