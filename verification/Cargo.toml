[package]
name = "composite_def"
version = "0.1.0"
edition = "2021"
publish = false

[dependencies]
heck = "0.3"
proc-macro2 = "1"
proc-macro-error = "1"
quote = "1"
scale-info = "2"
syn = "1"
