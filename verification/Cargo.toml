[package]
name = "structopt_derive"
version = "0.1.0"
edition = "2021"
publish = false

[dependencies]
heck = "0.3"
proc-macro2 = "1"
quote = "1"
syn = { version = "1", features = ["full"] }
proc-macro-error = "1"
