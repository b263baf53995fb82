[package]
name = "mongodb_core"
version = "0.1.0"
edition = "2021"
publish = false

[dependencies]
bson = "2"
serde = { version = "1", features = ["derive"] }
futures-core = "0.3"
futures-util = "0.3"
