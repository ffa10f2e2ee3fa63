[package]
name = "langtag"
version = "0.1.0"
edition = "2021"
publish = false

[dependencies]
isolang = "2"
