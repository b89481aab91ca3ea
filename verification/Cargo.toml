[package]
name = "research_fund"
version = "0.1.0"
edition = "2021"
publish = false

[dependencies]
ic-cdk = "0.12"
ic-stable-structures = "0.5"
candid = "0.10"
serde = { version = "1", features = ["derive"] }
serde_json = "1"
