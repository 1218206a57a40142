[package]
name = "toasty_cursor"
version = "0.1.0"
edition = "2021"
publish = false

[dependencies]
toasty-core = "*"
