[package]
name = "ministd"
version = "0.1.0"
edition = "2021"
publish = false

[dependencies]
error-repr = "=0.1.1"
