[package]
name = "hsharp"
version = "0.8.0"
edition = "2021"
publish = false

[dependencies]
clap = { version = "4", features = ["derive"] }
colored = "2"
indicatif = "0.17"
serde_json = "1"
