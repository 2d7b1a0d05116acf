[package]
name = "global_main_chain"
version = "0.1.0"
edition = "2021"
publish = false

[dependencies]
chrono = { version = "0.4", features = ["serde"] }
hex = "0.4"
rand = "0.8"
sha2 = "0.10"
rocket = { version = "0.5", features = ["json", "tls"] }
reqwest = { version = "0.11", default-features = false, features = ["json", "rustls-tls"] }
