[package]
name = "paper_scissors_stone"
version = "0.1.0"
edition = "2021"
publish = false

[dependencies]
hex = "0.4"
hyper = { version = "0.14", features = ["client", "http1", "tcp", "runtime"] }
log = "0.4"
serde = { version = "1", features = ["derive"] }
serde_json = "1"
structopt = "0.3"
tokio = { version = "1", features = ["rt"] }
