[package]
name = "deepthought"
version = "0.1.0"
edition = "2021"
publish = false

[dependencies]
serde_json = "*"
minijinja = "*"
rust-rule-engine = "*"
nanoid = "*"
vecstore = "*"
