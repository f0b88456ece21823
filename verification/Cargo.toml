[package]
name = "yuck_syntax"
version = "0.1.0"
edition = "2021"
publish = false

[dependencies]
unicode-segmentation = "1"
miette = "*"
thiserror = "1"
lalrpop-util = { version = "*", default-features = false }
