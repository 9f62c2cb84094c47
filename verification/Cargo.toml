[package]
name = "enum_from_functions"
version = "0.1.0"
edition = "2021"
publish = false

[dependencies]
convert_case = "*"
syn = { version = "2", features = ["full", "extra-traits"] }
quote = "1"
proc-macro2 = "1"
proc-macro-error = "1"
