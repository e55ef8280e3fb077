[package]
name = "rustcafe"
version = "0.1.0"
edition = "2021"
publish = false

[dependencies]
chrono = { version = "0.4", default-features = false, features = ["now"] }
docopt = "1"
hyper = "0.10"
rustc-serialize = "0.3"
