[package]
name = "proof_of_sql_core"
version = "0.1.0"
edition = "2021"
publish = false

[dependencies]
bumpalo = "3"
serde = { version = "1", features = ["derive"] }
