[package]
name = "gnomegg"
version = "0.1.0"
edition = "2021"
publish = false

[dependencies]
chrono = "0.4"
blake3 = "1"
redis = "0.27"
diesel = { version = "2", features = ["sqlite"] }
