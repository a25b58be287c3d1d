[package]
name = "interop_gen"
version = "0.1.0"
edition = "2021"
publish = false

[dependencies]
interoptopus = "*"
syn = { version = "*", features = ["full"] }
quote = "*"
proc-macro2 = "*"
darling = "*"
