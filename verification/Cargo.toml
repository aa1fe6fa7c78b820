[package]
name = "reg_match"
version = "0.1.0"
edition = "2021"
publish = false

[dependencies]
regex = "*"
regex-syntax = "*"
