[package]
name = "card_lookup"
version = "0.1.0"
edition = "2021"
publish = false

[dependencies]
colored = "*"
image = "*"
reqwest = { version = "*", default-features = false, features = ["blocking"] }
serde = { version = "*", features = ["derive"] }
serde_json = "*"
tempfile = "*"
termimage = "*"
