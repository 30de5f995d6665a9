[package]
name = "load_balancer"
version = "0.1.0"
edition = "2021"
publish = false

[dependencies]
rand = "0.8"
rocket = "0.5"
reqwest = { version = "0.12", default-features = false, features = ["blocking"] }
clap = "4"
