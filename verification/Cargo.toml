[package]
name = "valuecell_supervisor"
version = "0.1.0"
edition = "2021"
publish = false

[dependencies]
serde_json = "*"
uuid = { version = "*", features = ["v7"] }
reqwest = { version = "*", default-features = false, features = ["blocking"] }
