[package]
name = "db_enum"
version = "0.1.0"
edition = "2021"
publish = false

[dependencies]
heck = "*"
proc-macro2 = "*"
quote = "*"
syn = "*"
