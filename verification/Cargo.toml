[package]
name = "wat"
version = "0.1.0"
edition = "2021"
publish = false

[dependencies]
regex = "1"
colored = "2"
clap = { version = "4", features = ["derive"] }
clap_complete = "4"
indicatif = "0.17"
linereader = "0.4"
serde = { version = "1", features = ["derive"] }
serde_json = "1"
