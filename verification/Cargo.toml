[package]
name = "unclap"
version = "0.1.0"
edition = "2021"
publish = false

[dependencies]
convert_case = "=0.6.0"
darling = "=0.14.4"
proc-macro-error = "=1.0.4"
proc-macro2 = "=1.0.107"
quote = "=1.0.47"
syn = "=1.0.109"
