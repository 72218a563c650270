[package]
name = "shd"
version = "0.1.0"
edition = "2021"
publish = false

[dependencies]
byte-unit = "4"
clap = { version = "4", features = ["derive"] }
colored = "2"
glob = "0.3"
prettytable-rs = "0.10"
serde = { version = "1", features = ["derive"] }
serde_json = "1"
