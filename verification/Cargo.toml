[package]
name = "veri-easy"
version = "0.1.0"
edition = "2021"
publish = false

[dependencies]
anyhow = "1"
prettyplease = "0.2"
proc-macro2 = "1"
quote = "1"
regex = "1"
syn = { version = "2", features = ["full", "visit", "visit-mut"] }
