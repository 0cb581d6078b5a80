[package]
name = "rule_engine"
version = "0.1.0"
edition = "2021"
publish = false

[dependencies]
chrono = "*"
rand = "*"
unic-langid = "*"
