[package]
name = "dash_rs"
version = "0.1.0"
edition = "2021"
publish = false

[dependencies]
base64 = "*"
flate2 = "*"
sha1_smol = "*"
reqwest = { version = "*", default-features = false, features = ["blocking"] }
