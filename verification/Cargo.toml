[package]
name = "fmt_derive"
version = "0.1.0"
edition = "2021"

[dependencies]
proc-macro2 = "*"
quote = "*"
syn = "*"
proc-macro-crate = "*"
