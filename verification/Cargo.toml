[package]
name = "rosty"
version = "0.1.0"
edition = "2021"
publish = false

[dependencies]
nix = { version = "*", features = ["hostname"] }
tokio = { version = "1", features = ["full"] }
hyper = { version = "=0.14.32", features = ["client", "server", "http1", "tcp"] }
ctrlc = "*"
