[package]
name = "rxrs"
version = "0.1.0"
edition = "2021"
publish = false

[dependencies]
futures = "0.3"
pin-project-lite = "0.2"
