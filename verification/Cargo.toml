[package]
name = "cow_bridge"
version = "0.1.0"
edition = "2021"
publish = false

[dependencies]
cowlang = "*"
syn = { version = "1", features = ["full", "extra-traits"] }
quote = "1"
proc-macro2 = "1"
