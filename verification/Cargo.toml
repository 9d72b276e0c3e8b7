[package]
name = "proptest_recurse"
version = "0.1.0"
edition = "2021"
publish = false

[dependencies]
im = "*"
proptest = "*"
