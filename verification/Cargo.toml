[package]
name = "field_types"
version = "1.1.0"
edition = "2021"
publish = false

[dependencies]
heck = "0.3"
proc-macro2 = "1.0"
quote = "1.0"
syn = "1.0"
