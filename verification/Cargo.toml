[package]
name = "ptzcam"
version = "0.1.0"
edition = "2021"
publish = false

[dependencies]
tokio = { version = "*", features = ["net", "time", "sync", "rt", "macros"] }
reqwest = { version = "*", default-features = false, features = ["json"] }
serde = { version = "*", features = ["derive"] }
serde_json = "*"
async-trait = "*"
uuid = { version = "*", features = ["v4"] }
