[package]
name = "seneca_solver"
version = "0.1.0"
edition = "2021"
publish = false

[dependencies]
rand = "*"
chrono = "*"
url = "*"
reqwest = { version = "*", default-features = false, features = ["json", "rustls-tls"] }
tokio = { version = "*", features = ["rt-multi-thread", "macros"] }
serde_json = "*"
inquire = "*"
indicatif = "*"
copypasta = "*"
